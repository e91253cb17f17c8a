//! User settings and the request and response shapes of the daemon's API.

use vstd::prelude::*;
use vstd::string::*;
use crate::process::CoreInfo;
use crate::text::{concat, is_prefix_of, is_trim_of, starts_with, strip_all, trim, trim_start_matches, white_space};

verus! {

pub struct GuiSettings {
    pub routing: bool,
    pub log: bool,
    pub auto_apply: bool,
}

pub struct UpdaterSettings {
    /// Mirror base addresses, tried in this order.
    pub github_proxy: Vec<String>,
    /// Back up the installed binary before an update replaces it.
    pub backup_core: bool,
}

pub struct LogSettings {
    /// Hours from UTC used for timestamps shown and written.
    pub timezone: i32,
}

pub struct AppSettings {
    pub gui: GuiSettings,
    pub updater: UpdaterSettings,
    pub log: LogSettings,
}

/// The time zone offsets, in hours, that settings accept.
pub open spec fn timezone_ok(tz: int) -> bool {
    -12 <= tz <= 14
}

/// A mirror address as stored: trimmed, and given an `https://` scheme
/// (dropping stray leading `://`) unless it already starts with `http`.
pub open spec fn proxy_form(trimmed: Seq<char>, r: Seq<char>) -> bool {
    if is_prefix_of("http"@, trimmed) {
        r == trimmed
    } else {
        r == "https://"@ + strip_all(trimmed, "://"@)
    }
}

pub open spec fn normalized_proxy(p: Seq<char>, r: Seq<char>) -> bool {
    exists|t: Seq<char>| is_trim_of(p, t) && proxy_form(t, r)
}

pub fn normalize_proxy(p: &str) -> (r: String)
    ensures
        normalized_proxy(p@, r@),
{
    let t = trim(p);
    if starts_with(t.as_str(), "http") {
        return t;
    }
    let rest = trim_start_matches(t.as_str(), "://");
    concat("https://", rest.as_str())
}

proof fn lemma_strip_all_is_suffix(s: Seq<char>, p: Seq<char>) -> (k: int)
    ensures
        0 <= k <= s.len(),
        strip_all(s, p) == s.subrange(k, s.len() as int),
    decreases s.len(),
{
    if p.len() > 0 && is_prefix_of(p, s) {
        let rest = s.subrange(p.len() as int, s.len() as int);
        let j = lemma_strip_all_is_suffix(rest, p);
        assert(rest.subrange(j, rest.len() as int) =~= s.subrange(p.len() + j, s.len() as int));
        p.len() + j
    } else {
        assert(s.subrange(0, s.len() as int) =~= s);
        0
    }
}

/// A string that neither starts nor ends with white space is its own trim.
proof fn lemma_trim_of_trimmed(s: Seq<char>, t: Seq<char>)
    requires
        is_trim_of(s, t),
        s.len() > 0 ==> !white_space(s[0]) && !white_space(s[s.len() - 1]),
    ensures
        t == s,
{
    let (a, b) = choose|a: int, b: int| {
        &&& 0 <= a <= b <= s.len()
        &&& t == s.subrange(a, b)
        &&& forall|i: int| 0 <= i < a ==> white_space(#[trigger] s[i])
        &&& forall|i: int| b <= i < s.len() ==> white_space(#[trigger] s[i])
        &&& a < b ==> !white_space(s[a]) && !white_space(s[b - 1])
    };
    if a > 0 {
        assert(white_space(s[0]));
    }
    if b < s.len() {
        assert(white_space(s[s.len() - 1]));
    }
    assert(t =~= s);
}

/// Normalizing a mirror address twice gives what normalizing it once gave:
/// a stored address is already in its stored form.
pub proof fn normalize_proxy_is_idempotent(p: Seq<char>, r: Seq<char>, r2: Seq<char>)
    requires
        normalized_proxy(p, r),
        normalized_proxy(r, r2),
    ensures
        r2 == r,
{
    reveal_strlit("http");
    reveal_strlit("https://");
    let t = choose|t: Seq<char>| is_trim_of(p, t) && proxy_form(t, r);
    let t2 = choose|t2: Seq<char>| is_trim_of(r, t2) && proxy_form(t2, r2);
    let (a, b) = choose|a: int, b: int| {
        &&& 0 <= a <= b <= p.len()
        &&& t == p.subrange(a, b)
        &&& forall|i: int| 0 <= i < a ==> white_space(#[trigger] p[i])
        &&& forall|i: int| b <= i < p.len() ==> white_space(#[trigger] p[i])
        &&& a < b ==> !white_space(p[a]) && !white_space(p[b - 1])
    };
    if is_prefix_of("http"@, t) {
        assert(t[0] == p[a] && t[t.len() - 1] == p[b - 1]);
        lemma_trim_of_trimmed(r, t2);
        assert(r.subrange(0, 4) == "http"@);
    } else {
        let rest = strip_all(t, "://"@);
        let k = lemma_strip_all_is_suffix(t, "://"@);
        assert(r == "https://"@ + rest);
        assert(r[0] == 'h');
        if rest.len() > 0 {
            assert(r[r.len() - 1] == rest[rest.len() - 1]);
            assert(rest[rest.len() - 1] == t[t.len() - 1]);
            assert(t[t.len() - 1] == p[b - 1]);
        } else {
            assert(r[r.len() - 1] == '/');
        }
        lemma_trim_of_trimmed(r, t2);
        assert(r.subrange(0, 4) =~= "http"@);
    }
}

/// The defaults: no GUI options, two public mirrors, backups on, UTC+3.
pub open spec fn is_default(s: AppSettings) -> bool {
    &&& !s.gui.routing && !s.gui.log && !s.gui.auto_apply
    &&& s.updater.github_proxy@.len() == 2
    &&& s.updater.github_proxy@[0]@ == "https://gh-proxy.com"@
    &&& s.updater.github_proxy@[1]@ == "https://ghfast.top"@
    &&& s.updater.backup_core
    &&& s.log.timezone == 3
}

impl Default for AppSettings {
    fn default() -> (r: AppSettings)
        ensures
            is_default(r),
    {
        let mut proxies: Vec<String> = Vec::new();
        proxies.push(String::from_str("https://gh-proxy.com"));
        proxies.push(String::from_str("https://ghfast.top"));
        AppSettings {
            gui: GuiSettings { routing: false, log: false, auto_apply: false },
            updater: UpdaterSettings { github_proxy: proxies, backup_core: true },
            log: LogSettings { timezone: 3 },
        }
    }
}

/// Why new settings were refused.
#[derive(Clone, Copy, Debug, PartialEq, Eq, Structural)]
pub enum SettingsError {
    /// The time zone offset is outside -12..=14 hours.
    TimezoneOutOfRange,
}

impl AppSettings {
    /// Settings stored in the older format, which held only the time zone:
    /// the defaults with that offset.
    pub fn from_legacy(timezone_offset: i32) -> (r: AppSettings)
        ensures
            r.log.timezone == timezone_offset,
            !r.gui.routing && !r.gui.log && !r.gui.auto_apply,
            r.updater.github_proxy@.len() == 2,
            r.updater.github_proxy@[0]@ == "https://gh-proxy.com"@,
            r.updater.github_proxy@[1]@ == "https://ghfast.top"@,
            r.updater.backup_core,
    {
        let mut s = AppSettings::default();
        s.log.timezone = timezone_offset;
        s
    }

    /// Puts every mirror address in its stored form; order and count are kept.
    pub fn normalize_proxies(&mut self)
        ensures
            final(self).updater.github_proxy@.len() == old(self).updater.github_proxy@.len(),
            forall|i: int| 0 <= i < old(self).updater.github_proxy@.len() ==>
                normalized_proxy(old(self).updater.github_proxy@[i]@, #[trigger] final(self).updater.github_proxy@[i]@),
            final(self).updater.backup_core == old(self).updater.backup_core,
            final(self).gui == old(self).gui,
            final(self).log == old(self).log,
    {
        let mut out: Vec<String> = Vec::new();
        let mut i: usize = 0;
        while i < self.updater.github_proxy.len()
            invariant
                i <= self.updater.github_proxy@.len(),
                self == old(self),
                out@.len() == i,
                forall|k: int| 0 <= k < i ==> normalized_proxy(self.updater.github_proxy@[k]@, #[trigger] out@[k]@),
            decreases self.updater.github_proxy@.len() - i,
        {
            let p = normalize_proxy(self.updater.github_proxy[i].as_str());
            out.push(p);
            i = i + 1;
        }
        self.updater.github_proxy = out;
    }

    /// Takes settings sent by a client: refused when the time zone is out of
    /// range, else kept with the mirror addresses normalized.
    pub fn accept(self) -> (r: Result<AppSettings, SettingsError>)
        ensures
            !timezone_ok(self.log.timezone as int) <==> r is Err,
            r matches Err(e) ==> e == SettingsError::TimezoneOutOfRange,
            r matches Ok(s) ==> {
                &&& s.log == self.log
                &&& s.gui == self.gui
                &&& s.updater.backup_core == self.updater.backup_core
                &&& s.updater.github_proxy@.len() == self.updater.github_proxy@.len()
                &&& forall|i: int| 0 <= i < self.updater.github_proxy@.len() ==>
                    normalized_proxy(self.updater.github_proxy@[i]@, #[trigger] s.updater.github_proxy@[i]@)
            },
    {
        if self.log.timezone < -12 || self.log.timezone > 14 {
            return Err(SettingsError::TimezoneOutOfRange);
        }
        let mut s = self;
        s.normalize_proxies();
        Ok(s)
    }
}

/// The daemon's context: the active core, the settings and the init script
/// in use. One owner holds it and hands it to the operations that need it.
pub struct AppState {
    pub core: CoreInfo,
    pub settings: AppSettings,
    pub init_file: String,
    pub debug: bool,
}

/// The uniform answer of the API: success, an error message, and data.
pub struct ApiResponse<T> {
    pub success: bool,
    pub error: Option<String>,
    pub data: Option<T>,
}

impl<T> ApiResponse<T> {
    pub fn ok(data: Option<T>) -> (r: ApiResponse<T>)
        ensures
            r.success && r.error is None && r.data == data,
    {
        ApiResponse { success: true, error: None, data }
    }

    pub fn failure(message: String) -> (r: ApiResponse<T>)
        ensures
            !r.success && r.error == Some(message) && r.data is None,
    {
        ApiResponse { success: false, error: Some(message), data: None }
    }
}

/// A request to update a core to a version.
pub struct UpdateReq {
    pub core: String,
    pub version: String,
    pub backup_core: bool,
}

/// A request to list the releases of a core.
pub struct ReleaseQuery {
    pub core: String,
}

/// A request on a configuration file.
pub struct ConfigReq {
    pub action: String,
    pub filename: String,
    pub content: String,
}

/// A request for a control action.
pub struct ControlReq {
    pub action: String,
    pub core: String,
}

} // verus!
