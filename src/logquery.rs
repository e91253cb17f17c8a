//! Which log lines a search query selects.

use vstd::prelude::*;
use crate::text::{contains, occurs_in, replace_all, replaced};

verus! {

/// A line with the level spellings of both cores made uniform, so that one
/// query finds `[Warning]` and `level=warning` alike.
pub open spec fn level_normalized(s: Seq<char>) -> Seq<char> {
    let s1 = replaced(s, "[Debug]"@, "[DEBUG]"@);
    let s2 = replaced(s1, "level=debug"@, "level=DEBUG"@);
    let s3 = replaced(s2, "[Info]"@, "[INFO]"@);
    let s4 = replaced(s3, "level=info"@, "level=INFO"@);
    let s5 = replaced(s4, "[Warning]"@, "[WARN]"@);
    let s6 = replaced(s5, "level=warning"@, "level=WARN"@);
    let s7 = replaced(s6, "[Error]"@, "[ERROR]"@);
    let s8 = replaced(s7, "level=error"@, "level=ERROR"@);
    let s9 = replaced(s8, "[Fatal]"@, "[FATAL]"@);
    replaced(s9, "level=fatal"@, "level=FATAL"@)
}

pub fn normalize_levels(line: &str) -> (r: String)
    ensures
        r@ == level_normalized(line@),
{
    proof {
        reveal_strlit("[Debug]"); reveal_strlit("level=debug"); reveal_strlit("[Info]");
        reveal_strlit("level=info"); reveal_strlit("[Warning]"); reveal_strlit("level=warning");
        reveal_strlit("[Error]"); reveal_strlit("level=error"); reveal_strlit("[Fatal]");
        reveal_strlit("level=fatal");
    }
    let s1 = replace_all(line, "[Debug]", "[DEBUG]");
    let s2 = replace_all(s1.as_str(), "level=debug", "level=DEBUG");
    let s3 = replace_all(s2.as_str(), "[Info]", "[INFO]");
    let s4 = replace_all(s3.as_str(), "level=info", "level=INFO");
    let s5 = replace_all(s4.as_str(), "[Warning]", "[WARN]");
    let s6 = replace_all(s5.as_str(), "level=warning", "level=WARN");
    let s7 = replace_all(s6.as_str(), "[Error]", "[ERROR]");
    let s8 = replace_all(s7.as_str(), "level=error", "level=ERROR");
    let s9 = replace_all(s8.as_str(), "[Fatal]", "[FATAL]");
    replace_all(s9.as_str(), "level=fatal", "level=FATAL")
}

/// `q[a..b]` is a term of the query: a non-empty run between `|` separators.
pub open spec fn term_at(q: Seq<char>, a: int, b: int) -> bool {
    &&& 0 <= a < b <= q.len()
    &&& (a == 0 || q[a - 1] == '|')
    &&& (b == q.len() || q[b] == '|')
    &&& forall|k: int| a <= k < b ==> #[trigger] q[k] != '|'
}

/// Some term of the query occurs in the text.
pub open spec fn some_term_in(q: Seq<char>, text: Seq<char>) -> bool {
    exists|a: int, b: int| term_at(q, a, b) && occurs_in(q.subrange(a, b), text)
}

/// Whether some `|`-separated term of `query` occurs in `text`.
pub fn any_term_in(query: &str, text: &str) -> (r: bool)
    ensures
        r == some_term_in(query@, text@),
{
    let n = query.unicode_len();
    let mut i: usize = 0;
    while i < n
        invariant
            n == query@.len(),
            i <= n,
            i == 0 || i == n || query@[i - 1] == '|' || query@[i as int] == '|',
            forall|a: int, b: int| term_at(query@, a, b) && a < i ==> !occurs_in(query@.subrange(a, b), text@),
        decreases n - i,
    {
        if query.get_char(i) == '|' {
            i = i + 1;
        } else {
            let mut b: usize = i + 1;
            while b < n && query.get_char(b) != '|'
                invariant
                    n == query@.len(),
                    i < b <= n,
                    forall|k: int| i <= k < b ==> #[trigger] query@[k] != '|',
                decreases n - b,
            {
                b = b + 1;
            }
            assert(i == 0 || query@[i - 1] == '|');
            assert(term_at(query@, i as int, b as int));
            let term = query.substring_char(i, b);
            if contains(text, term) {
                return true;
            }
            assert forall|a: int, c: int| term_at(query@, a, c) && a < b implies !occurs_in(query@.subrange(a, c), text@) by {
                if a > i {
                    assert(query@[a - 1] != '|');
                }
                if a == i {
                    if c < b {
                        assert(query@[c] != '|');
                    } else if c > b {
                        assert(query@[b as int] != '|');
                    }
                }
            }
            i = b;
        }
    }
    false
}

/// Whether a log line is shown for a query: every line when the query is
/// empty, else the lines whose level-normalized text holds some term.
pub fn line_selected(line: &str, query: &str) -> (r: bool)
    ensures
        r == (query@.len() == 0 || some_term_in(query@, level_normalized(line@))),
{
    if query.unicode_len() == 0 {
        return true;
    }
    let normalized = normalize_levels(line);
    any_term_in(query, normalized.as_str())
}

} // verus!
