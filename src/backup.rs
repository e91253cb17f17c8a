//! Names of backups of an installed binary: the core's name, the local time
//! to the second, and a counter where that name is already taken.

use vstd::prelude::*;
use vstd::string::*;
use chrono::{Datelike, Timelike};
use crate::text::{concat, str_eq};

verus! {

/// A calendar time, shifted into the configured time zone.
#[derive(Clone, Copy, Debug, PartialEq, Eq, Structural)]
pub struct Timestamp {
    pub year: i32,
    pub month: u32,
    pub day: u32,
    pub hour: u32,
    pub minute: u32,
    pub second: u32,
}

impl Timestamp {
    pub open spec fn wf(self) -> bool {
        &&& 1 <= self.month <= 12
        &&& 1 <= self.day <= 31
        &&& self.hour < 24
        &&& self.minute < 60
        &&& self.second < 60
    }
}

/// The fields of a timestamp, as plain numbers.
pub open spec fn fields(t: Timestamp) -> (int, int, int, int, int, int) {
    (t.year as int, t.month as int, t.day as int, t.hour as int, t.minute as int, t.second as int)
}

/// The calendar time, in UTC, `secs` seconds after the Unix epoch, as year,
/// month, day, hour, minute and second; `None` outside chrono's range.
pub uninterp spec fn utc_civil(secs: int) -> Option<(int, int, int, int, int, int)>;

/// Relies on `SystemTime::now` and `duration_since(UNIX_EPOCH)`: the whole
/// seconds since the Unix epoch, `None` for a clock set before it (or beyond
/// what `i64` holds). Neither call panics.
#[verifier::external_body]
fn epoch_seconds() -> (r: Option<i64>)
    ensures
        r matches Some(s) ==> s >= 0,
{
    let since = std::time::SystemTime::now().duration_since(std::time::UNIX_EPOCH).ok()?;
    i64::try_from(since.as_secs()).ok()
}

/// Relies on chrono's `DateTime::from_timestamp(secs, 0)`: `None` outside
/// its range, else a UTC date and time whose fields, read through
/// `Datelike` and `Timelike`, keep the ranges those traits document.
#[verifier::external_body]
fn civil_time(secs: i64) -> (r: Option<Timestamp>)
    ensures
        match r {
            Some(t) => t.wf() && utc_civil(secs as int) == Some(fields(t)),
            None => utc_civil(secs as int) is None,
        },
{
    let t = chrono::DateTime::from_timestamp(secs, 0)?;
    Some(Timestamp {
        year: t.year(), month: t.month(), day: t.day(),
        hour: t.hour(), minute: t.minute(), second: t.second(),
    })
}

pub open spec fn digit_char(d: nat) -> char {
    if d == 0 { '0' } else if d == 1 { '1' } else if d == 2 { '2' } else if d == 3 { '3' }
    else if d == 4 { '4' } else if d == 5 { '5' } else if d == 6 { '6' } else if d == 7 { '7' }
    else if d == 8 { '8' } else { '9' }
}

/// The decimal digits of `n`, without leading zeros.
pub open spec fn decimal(n: nat) -> Seq<char>
    decreases n,
{
    if n < 10 { seq![digit_char(n)] } else { decimal(n / 10) + seq![digit_char(n % 10)] }
}

/// The decimal digits of `n`, with zeros in front up to `width` characters.
pub open spec fn padded(n: nat, width: nat) -> Seq<char>
    decreases width,
{
    if width <= decimal(n).len() { decimal(n) } else { seq!['0'] + padded(n, (width - 1) as nat) }
}

/// A year as `%Y` writes it: four digits between 0 and 9999, else with a sign.
pub open spec fn year_text(y: int) -> Seq<char> {
    if 0 <= y <= 9999 {
        padded(y as nat, 4)
    } else if y > 9999 {
        seq!['+'] + decimal(y as nat)
    } else {
        seq!['-'] + padded((-y) as nat, 4)
    }
}

/// `core-YYYYMMDD-HHMMSS`.
pub open spec fn stem_spec(core: Seq<char>, t: Timestamp) -> Seq<char> {
    core + seq!['-'] + year_text(t.year as int) + padded(t.month as nat, 2) + padded(t.day as nat, 2)
        + seq!['-'] + padded(t.hour as nat, 2) + padded(t.minute as nat, 2) + padded(t.second as nat, 2)
}

fn digit_str(d: u32) -> (r: &'static str)
    requires
        d < 10,
    ensures
        r@ == seq![digit_char(d as nat)],
{
    proof {
        reveal_strlit("0"); reveal_strlit("1"); reveal_strlit("2"); reveal_strlit("3"); reveal_strlit("4");
        reveal_strlit("5"); reveal_strlit("6"); reveal_strlit("7"); reveal_strlit("8"); reveal_strlit("9");
    }
    if d == 0 { "0" } else if d == 1 { "1" } else if d == 2 { "2" } else if d == 3 { "3" }
    else if d == 4 { "4" } else if d == 5 { "5" } else if d == 6 { "6" } else if d == 7 { "7" }
    else if d == 8 { "8" } else { "9" }
}

fn push_decimal(out: &mut String, n: u32)
    ensures
        final(out)@ == old(out)@ + decimal(n as nat),
    decreases n,
{
    if n >= 10 {
        push_decimal(out, n / 10);
    }
    out.append(digit_str(n % 10));
    assert(final(out)@ =~= old(out)@ + decimal(n as nat));
}

proof fn lemma_decimal_len(n: nat)
    ensures
        1 <= decimal(n).len() <= n + 1,
    decreases n,
{
    if n >= 10 {
        lemma_decimal_len(n / 10);
    }
}

fn decimal_len(n: u32) -> (r: u32)
    ensures
        r == decimal(n as nat).len(),
    decreases n,
{
    if n < 10 {
        1
    } else {
        let k = decimal_len(n / 10);
        proof { lemma_decimal_len((n / 10) as nat); }
        k + 1
    }
}

fn push_padded(out: &mut String, n: u32, width: u32)
    ensures
        final(out)@ == old(out)@ + padded(n as nat, width as nat),
    decreases width,
{
    if width <= decimal_len(n) {
        push_decimal(out, n);
    } else {
        proof { reveal_strlit("0"); }
        out.append("0");
        push_padded(out, n, width - 1);
        assert(final(out)@ =~= old(out)@ + padded(n as nat, width as nat));
    }
}

fn push_year(out: &mut String, y: i32)
    ensures
        final(out)@ == old(out)@ + year_text(y as int),
{
    if 0 <= y && y <= 9999 {
        push_padded(out, y as u32, 4);
    } else if y > 9999 {
        proof { reveal_strlit("+"); }
        out.append("+");
        push_decimal(out, y as u32);
        assert(final(out)@ =~= old(out)@ + year_text(y as int));
    } else {
        proof { reveal_strlit("-"); }
        out.append("-");
        let m: u32 = if y == i32::MIN { 2147483648u32 } else { (-y) as u32 };
        push_padded(out, m, 4);
        assert(final(out)@ =~= old(out)@ + year_text(y as int));
    }
}

/// The backup name for a core at time `t`, before any counter.
pub fn backup_stem(core: &str, t: &Timestamp) -> (r: String)
    ensures
        r@ == stem_spec(core@, *t),
{
    proof { reveal_strlit("-"); }
    let mut out = String::from_str(core);
    out.append("-");
    push_year(&mut out, t.year);
    push_padded(&mut out, t.month, 2);
    push_padded(&mut out, t.day, 2);
    out.append("-");
    push_padded(&mut out, t.hour, 2);
    push_padded(&mut out, t.minute, 2);
    push_padded(&mut out, t.second, 2);
    assert(out@ =~= stem_spec(core@, *t));
    out
}

/// `name` differs from every name in `taken`.
pub open spec fn is_fresh(name: Seq<char>, taken: Seq<String>) -> bool {
    forall|i: int| 0 <= i < taken.len() ==> taken[i]@ != name
}

pub fn is_taken(taken: &Vec<String>, name: &str) -> (r: bool)
    ensures
        r == !is_fresh(name@, taken@),
{
    let mut i: usize = 0;
    while i < taken.len()
        invariant
            i <= taken@.len(),
            forall|k: int| 0 <= k < i ==> taken@[k]@ != name@,
        decreases taken@.len() - i,
    {
        if str_eq(taken[i].as_str(), name) {
            return true;
        }
        i = i + 1;
    }
    false
}

/// A name that begins with `stem` and is none of `taken`: the stem itself if
/// it is free, else the stem with the first free counter `-1`, `-2`, ...
/// among as many as there are taken names, else the stem followed by enough
/// `0`s to be longer than every taken name.
pub fn fresh_backup_name(stem: &str, taken: &Vec<String>) -> (r: String)
    ensures
        is_fresh(r@, taken@),
        r@.len() >= stem@.len(),
        r@.subrange(0, stem@.len() as int) == stem@,
        is_fresh(stem@, taken@) ==> r@ == stem@,
{
    if !is_taken(taken, stem) {
        return String::from_str(stem);
    }
    let numbered = concat(stem, "-");
    proof { reveal_strlit("-"); }
    let mut k: u32 = 1;
    while (k as usize) <= taken.len() && k < 100000
        invariant
            numbered@ == stem@ + seq!['-'],
            !is_fresh(stem@, taken@),
        decreases 100000 - k,
    {
        let mut cand = concat(numbered.as_str(), "");
        push_decimal(&mut cand, k);
        if !is_taken(taken, cand.as_str()) {
            assert(cand@.subrange(0, stem@.len() as int) =~= stem@);
            return cand;
        }
        k = k + 1;
    }
    let mut longest: usize = 0;
    let mut i: usize = 0;
    while i < taken.len()
        invariant
            i <= taken@.len(),
            forall|j: int| 0 <= j < i ==> taken@[j]@.len() <= longest,
        decreases taken@.len() - i,
    {
        let n = taken[i].as_str().unicode_len();
        if n > longest {
            longest = n;
        }
        i = i + 1;
    }
    let mut cand = String::from_str(stem);
    proof { reveal_strlit("0"); }
    while is_taken(taken, cand.as_str())
        invariant
            cand@.len() >= stem@.len(),
            cand@.subrange(0, stem@.len() as int) == stem@,
            forall|j: int| 0 <= j < taken@.len() ==> taken@[j]@.len() <= longest,
            !is_fresh(stem@, taken@),
        decreases longest + 1 - cand@.len(),
    {
        let ghost before = cand@;
        proof {
            let j = choose|j: int| 0 <= j < taken@.len() && taken@[j]@ == before;
            assert(before.len() <= longest);
            reveal_strlit("0");
        }
        cand.append("0");
        assert(cand@.subrange(0, stem@.len() as int) =~= before.subrange(0, stem@.len() as int));
    }
    cand
}

/// The seconds since the epoch of the local time `tz_hours` hours from UTC.
pub open spec fn shifted(secs: int, tz_hours: int) -> int {
    secs + 3600 * tz_hours
}

/// `n` is a name for `stem` in a directory holding `taken`: none of those,
/// beginning with the stem, and the stem itself when that is free.
pub open spec fn named_after(n: Seq<char>, stem: Seq<char>, taken: Seq<String>) -> bool {
    &&& is_fresh(n, taken)
    &&& stem.len() <= n.len() && n.subrange(0, stem.len() as int) == stem
    &&& is_fresh(stem, taken) ==> n == stem
}

/// The backup name at `secs` seconds after the epoch: the core's name and
/// the calendar time shifted by `tz_hours`, made unique within the directory.
pub open spec fn backup_name_fits(core: Seq<char>, secs: int, tz_hours: int, taken: Seq<String>, n: Seq<char>) -> bool {
    exists|t: Timestamp| #[trigger] utc_civil(shifted(secs, tz_hours)) == Some(fields(t)) && t.wf()
        && named_after(n, stem_spec(core, t), taken)
}

/// The backup name for the clock reading `secs`: `None` when the shifted
/// time is outside the calendar.
pub fn backup_name_at(core: &str, secs: i64, tz_hours: i32, taken: &Vec<String>) -> (r: Option<String>)
    ensures
        r is Some <==> (i64::MIN <= shifted(secs as int, tz_hours as int) <= i64::MAX
            && utc_civil(shifted(secs as int, tz_hours as int)) is Some),
        r matches Some(n) ==> backup_name_fits(core@, secs as int, tz_hours as int, taken@, n@),
{
    let offset: i64 = (tz_hours as i64) * 3600;
    let local = match secs.checked_add(offset) {
        Some(l) => l,
        None => { return None; },
    };
    match civil_time(local) {
        Some(t) => {
            let stem = backup_stem(core, &t);
            let n = fresh_backup_name(stem.as_str(), taken);
            assert(named_after(n@, stem_spec(core@, t), taken@));
            Some(n)
        },
        None => None,
    }
}

/// The name under which a core's installed binary is backed up now, the
/// clock shifted by `tz_hours`, given the names already in the backup
/// directory. `None` where the clock cannot be read or the shifted time is
/// outside the calendar.
pub fn backup_name(core: &str, tz_hours: i32, taken: &Vec<String>) -> (r: Option<String>)
    ensures
        r matches Some(n) ==> exists|secs: int| secs >= 0 && #[trigger] backup_name_fits(core@, secs, tz_hours as int, taken@, n@),
{
    match epoch_seconds() {
        Some(secs) => backup_name_at(core, secs, tz_hours, taken),
        None => None,
    }
}

/// Backups made one after the other never collide: a name chosen fresh
/// against the directory, and a second chosen fresh against the directory
/// with the first added, differ from each other and from every name that was
/// there before, so neither backup overwrites another.
pub proof fn backups_never_collide(taken: Seq<String>, first: String, second: String)
    requires
        is_fresh(first@, taken),
        is_fresh(second@, taken.push(first)),
    ensures
        first@ != second@,
        is_fresh(second@, taken),
{
    assert(taken.push(first)[taken.len() as int] == first);
    assert forall|i: int| 0 <= i < taken.len() implies taken[i]@ != second@ by {
        assert(taken.push(first)[i] == taken[i]);
    }
}

} // verus!
