//! Resilient download: the direct source first, then each mirror in order,
//! until one delivers a body that passes the checks.
//!
//! The session makes every decision; its driver performs the requests and
//! reports what happened as events.

use vstd::prelude::*;
use vstd::string::*;
use crate::text::concat;

verus! {

/// The size threshold of the daemon: larger artifacts are spooled to disk
/// before extraction, and mirror bodies below it are taken for error pages.
pub const SIZE_THRESHOLD: u64 = 50 * 1024 * 1024;

/// Seconds a whole request may take.
pub const REQUEST_TIMEOUT_SECS: u64 = 120;

/// Seconds to wait for the next chunk of a body before the source counts as stalled.
pub const STALL_TIMEOUT_SECS: u64 = 15;

/// Where a request goes: the asset URL itself, or a mirror by its index.
#[derive(Clone, Copy, Debug, PartialEq, Eq, Structural)]
pub enum Source {
    Direct,
    Mirror(usize),
}

/// What the driver observed while requesting from the current source.
#[derive(Clone, Copy, Debug, PartialEq, Eq, Structural)]
pub enum FetchEvent {
    /// The connection could not be made, or the request failed.
    Unreachable,
    /// The server answered with a status outside the success range.
    HttpError(u16),
    /// A success status arrived; `html` tells whether the content type is an HTML document.
    Headers { html: bool },
    /// No chunk arrived within the stall timeout.
    Stalled,
    /// The body stream broke off with an error.
    Interrupted,
    /// The body ended after this many bytes.
    Finished(u64),
}

/// Why a source was given up on.
#[derive(Clone, Copy, Debug, PartialEq, Eq, Structural)]
pub enum Rejection {
    Unreachable,
    HttpStatus(u16),
    HtmlPage,
    Stalled,
    Interrupted,
    Empty,
    TooSmall(u64),
}

/// What the driver does next.
#[derive(Clone, Copy, Debug, PartialEq, Eq, Structural)]
pub enum Step {
    /// Send a request to this source.
    Request(Source),
    /// Stream the body of the current response.
    ReadBody,
    /// The bytes read from this source are the artifact.
    Accept(Source),
    /// Neither the direct source nor any mirror succeeded.
    GiveUp,
}

/// Where the session stands with the current source.
#[derive(Clone, Copy, Debug, PartialEq, Eq, Structural)]
pub enum Phase {
    AwaitingResponse,
    ReadingBody,
    Accepted,
    Exhausted,
}

/// The state of one download.
pub struct DownloadSession {
    pub url: String,
    pub mirrors: Vec<String>,
    /// Mirror bodies below this many bytes are taken for disguised error pages.
    pub threshold: u64,
    pub current: Source,
    pub phase: Phase,
}

/// The source tried after `s`, if any is left.
pub open spec fn next_source(s: Source, mirror_count: nat) -> Option<Source> {
    match s {
        Source::Direct => if mirror_count > 0 { Some(Source::Mirror(0)) } else { None },
        Source::Mirror(i) => if i + 1 < mirror_count { Some(Source::Mirror((i + 1) as usize)) } else { None },
    }
}

/// The verdict on an event at source `s`: `Ok(true)` accepts, `Ok(false)`
/// reads on, `Err` rejects the source.
pub open spec fn judge(s: Source, e: FetchEvent, threshold: u64) -> Result<bool, Rejection> {
    match e {
        FetchEvent::Unreachable => Err(Rejection::Unreachable),
        FetchEvent::HttpError(code) => Err(Rejection::HttpStatus(code)),
        FetchEvent::Headers { html } => if html && s is Mirror { Err(Rejection::HtmlPage) } else { Ok(false) },
        FetchEvent::Stalled => Err(Rejection::Stalled),
        FetchEvent::Interrupted => Err(Rejection::Interrupted),
        FetchEvent::Finished(n) => if n == 0 {
            Err(Rejection::Empty)
        } else if s is Mirror && n < threshold {
            Err(Rejection::TooSmall(n))
        } else {
            Ok(true)
        },
    }
}

/// One transition: the next source and phase, the step, and the rejection that caused it, if any.
pub open spec fn session_step(s: Source, p: Phase, e: FetchEvent, threshold: u64, mirror_count: nat)
    -> (Source, Phase, Step, Option<Rejection>)
{
    match p {
        Phase::Accepted => (s, p, Step::Accept(s), None),
        Phase::Exhausted => (s, p, Step::GiveUp, None),
        _ => match judge(s, e, threshold) {
            Ok(true) => (s, Phase::Accepted, Step::Accept(s), None),
            Ok(false) => (s, Phase::ReadingBody, Step::ReadBody, None),
            Err(why) => match next_source(s, mirror_count) {
                Some(n) => (n, Phase::AwaitingResponse, Step::Request(n), Some(why)),
                None => (s, Phase::Exhausted, Step::GiveUp, Some(why)),
            },
        },
    }
}

/// The address requested from source `s`: the URL itself, or the mirror's
/// base, a slash and the URL.
pub open spec fn source_url_spec(url: Seq<char>, mirrors: Seq<Seq<char>>, s: Source) -> Seq<char> {
    match s {
        Source::Direct => url,
        Source::Mirror(i) => mirrors[i as int] + seq!['/'] + url,
    }
}

pub fn source_url(url: &str, mirrors: &Vec<String>, s: Source) -> (r: String)
    requires
        s matches Source::Mirror(i) ==> i < mirrors@.len(),
    ensures
        r@ == source_url_spec(url@, mirrors@.map_values(|m: String| m@), s),
{
    match s {
        Source::Direct => String::from_str(url),
        Source::Mirror(i) => {
            let base = concat(mirrors[i].as_str(), "/");
            proof { reveal_strlit("/"); }
            concat(base.as_str(), url)
        },
    }
}

/// A mirror that answers with an HTML document is given up on as soon as its
/// headers arrive: its body is never read, so its size plays no part, and the
/// step is never to accept it.
pub proof fn html_mirror_is_rejected(i: usize, p: Phase, threshold: u64, mirror_count: nat)
    requires
        p == Phase::AwaitingResponse || p == Phase::ReadingBody,
    ensures
        ({
            let t = session_step(Source::Mirror(i), p, FetchEvent::Headers { html: true }, threshold, mirror_count);
            t.3 == Some(Rejection::HtmlPage) && !(t.2 is Accept) && !(t.2 is ReadBody)
        }),
{
}

/// Once a source has been accepted the session stays with it: whatever is
/// reported afterwards, no other source is requested.
pub proof fn acceptance_is_final(s: Source, e: FetchEvent, threshold: u64, mirror_count: nat)
    ensures
        session_step(s, Phase::Accepted, e, threshold, mirror_count) == (s, Phase::Accepted, Step::Accept(s), None::<Rejection>),
{
}

/// Sources are tried strictly in order: a mirror is requested only right after
/// the source before it was rejected, the first mirror after the direct source.
pub proof fn mirrors_tried_in_order(s: Source, p: Phase, e: FetchEvent, threshold: u64, mirror_count: nat, j: usize)
    requires
        mirror_count <= usize::MAX,
        session_step(s, p, e, threshold, mirror_count).2 == Step::Request(Source::Mirror(j)),
    ensures
        session_step(s, p, e, threshold, mirror_count).3 is Some,
        j < mirror_count,
        j == 0 ==> s == Source::Direct,
        j > 0 ==> s == Source::Mirror((j - 1) as usize),
{
}

impl DownloadSession {
    pub open spec fn mirror_views(&self) -> Seq<Seq<char>> {
        self.mirrors@.map_values(|m: String| m@)
    }

    /// The current source is the direct one or names an existing mirror.
    pub open spec fn wf(&self) -> bool {
        self.current matches Source::Mirror(i) ==> i < self.mirrors@.len()
    }

    /// A session that starts with the direct source; the first step is to request it.
    pub fn new(url: String, mirrors: Vec<String>, threshold: u64) -> (r: (DownloadSession, Step))
        ensures
            r.0.wf(),
            r.0.url@ == url@,
            r.0.mirrors@ == mirrors@,
            r.0.threshold == threshold,
            r.0.current == Source::Direct,
            r.0.phase == Phase::AwaitingResponse,
            r.1 == Step::Request(Source::Direct),
    {
        (DownloadSession { url, mirrors, threshold, current: Source::Direct, phase: Phase::AwaitingResponse },
         Step::Request(Source::Direct))
    }

    /// The address to request for the current source.
    pub fn current_url(&self) -> (r: String)
        requires
            self.wf(),
        ensures
            r@ == source_url_spec(self.url@, self.mirror_views(), self.current),
    {
        source_url(self.url.as_str(), &self.mirrors, self.current)
    }

    /// Takes in what the driver observed and decides the next step.
    pub fn on_event(&mut self, e: FetchEvent) -> (r: (Step, Option<Rejection>))
        requires
            old(self).wf(),
        ensures
            final(self).wf(),
            final(self).url == old(self).url,
            final(self).mirrors == old(self).mirrors,
            final(self).threshold == old(self).threshold,
            (final(self).current, final(self).phase, r.0, r.1)
                == session_step(old(self).current, old(self).phase, e, old(self).threshold,
                    old(self).mirrors@.len()),
    {
        match self.phase {
            Phase::Accepted => { return (Step::Accept(self.current), None); },
            Phase::Exhausted => { return (Step::GiveUp, None); },
            _ => {},
        }
        let verdict: Result<bool, Rejection> = match e {
            FetchEvent::Unreachable => Err(Rejection::Unreachable),
            FetchEvent::HttpError(code) => Err(Rejection::HttpStatus(code)),
            FetchEvent::Headers { html } => {
                if html && matches!(self.current, Source::Mirror(_)) {
                    Err(Rejection::HtmlPage)
                } else {
                    Ok(false)
                }
            },
            FetchEvent::Stalled => Err(Rejection::Stalled),
            FetchEvent::Interrupted => Err(Rejection::Interrupted),
            FetchEvent::Finished(n) => {
                if n == 0 {
                    Err(Rejection::Empty)
                } else if matches!(self.current, Source::Mirror(_)) && n < self.threshold {
                    Err(Rejection::TooSmall(n))
                } else {
                    Ok(true)
                }
            },
        };
        match verdict {
            Ok(true) => {
                self.phase = Phase::Accepted;
                (Step::Accept(self.current), None)
            },
            Ok(false) => {
                self.phase = Phase::ReadingBody;
                (Step::ReadBody, None)
            },
            Err(why) => {
                let count = self.mirrors.len();
                let next: Option<Source> = match self.current {
                    Source::Direct => if count > 0 { Some(Source::Mirror(0)) } else { None },
                    Source::Mirror(i) => if i + 1 < count { Some(Source::Mirror(i + 1)) } else { None },
                };
                match next {
                    Some(n) => {
                        self.current = n;
                        self.phase = Phase::AwaitingResponse;
                        (Step::Request(n), Some(why))
                    },
                    None => {
                        self.phase = Phase::Exhausted;
                        (Step::GiveUp, Some(why))
                    },
                }
            },
        }
    }
}

} // verus!
