//! Request middleware decisions: correlation ids, the log line of a response and the
//! per-caller rate limit.
use vstd::prelude::*;

use crate::crypto::is_hex_digit;
use crate::text::{chars_of, is_prefix, owned, starts_with, string_from_chars, trim, trimmed};

verus! {

// ── Correlation ids ───────────────────────────────────────────────────────────

/// The correlation id of a request.
#[derive(Debug)]
pub struct CorrelationId(pub String);

/// Stamps every request with a correlation id and echoes it in the response.
#[derive(Debug)]
pub struct CorrelationFairing;

/// Whether `s` is a version-4 UUID in hyphenated form: 36 characters, lowercase
/// hexadecimal digits in groups of 8, 4, 4, 4 and 12 joined by hyphens, the version
/// digit being `4`.
pub open spec fn is_uuid_v4_text(s: Seq<char>) -> bool {
    &&& s.len() == 36
    &&& forall|i: int|
        0 <= i < 36 ==> if i == 8 || i == 13 || i == 18 || i == 23 {
            #[trigger] s[i] == '-'
        } else {
            is_hex_digit(s[i])
        }
    &&& s[14] == '4'
}

/// `Uuid::new_v4()` in its hyphenated form (its `Display`): random, lowercase
/// hexadecimal, version digit `4`.
#[verifier::external_body]
fn random_uuid_hyphenated() -> (r: String)
    ensures
        is_uuid_v4_text(r@),
{
    uuid::Uuid::new_v4().to_string()
}

impl CorrelationFairing {
    /// The id of a request: the `X-Correlation-ID` it carries when not empty, else a
    /// new version-4 UUID.
    pub fn request_id(&self, header: Option<&str>) -> (r: CorrelationId)
        ensures
            header is Some && header->0@.len() > 0 ==> r.0@ == header->0@,
            !(header is Some && header->0@.len() > 0) ==> is_uuid_v4_text(r.0@),
    {
        match header {
            Some(h) => if !crate::text::is_empty_str(h) {
                CorrelationId(owned(h))
            } else {
                CorrelationId(random_uuid_hyphenated())
            },
            None => CorrelationId(random_uuid_hyphenated()),
        }
    }

    /// The `X-Correlation-ID` value echoed in the response: the request's id, unless
    /// it is empty.
    pub fn response_header(&self, id: &CorrelationId) -> (r: Option<String>)
        ensures
            id.0@.len() > 0 ==> (r matches Some(v) && v@ == id.0@),
            id.0@.len() == 0 ==> r is None,
    {
        if crate::text::is_empty_str(id.0.as_str()) {
            None
        } else {
            Some(owned(id.0.as_str()))
        }
    }
}

// ── Request log ───────────────────────────────────────────────────────────────

/// How loudly a finished request is logged.
#[derive(Debug, Clone, Copy, PartialEq, Eq, Structural)]
pub enum LogLevel {
    Info,
    Warn,
    Error,
}

/// Logs every request with its correlation id, status and duration.
#[derive(Debug)]
pub struct RequestLoggerFairing;

impl RequestLoggerFairing {
    /// The level and event name of the log line of a response with status `status`:
    /// server errors at error level, client errors at warning level, the rest at info.
    pub fn response_event(&self, status: u16) -> (r: (LogLevel, &'static str))
        ensures
            status >= 500 ==> r.0 == LogLevel::Error && r.1@ == "request.error"@,
            400 <= status < 500 ==> r.0 == LogLevel::Warn && r.1@ == "request.client_error"@,
            status < 400 ==> r.0 == LogLevel::Info && r.1@ == "request.completed"@,
    {
        if status >= 500 {
            (LogLevel::Error, "request.error")
        } else if status >= 400 {
            (LogLevel::Warn, "request.client_error")
        } else {
            (LogLevel::Info, "request.completed")
        }
    }
}

// ── Rate limit ────────────────────────────────────────────────────────────────

/// Requests allowed per caller in one window.
pub const RATE_LIMIT: usize = 1000000;

/// The length of a rate-limit window, in nanoseconds.
pub const WINDOW_NANOS: u128 = 60_000_000_000;

/// A caller that passed the rate limit.
#[derive(Debug)]
pub struct RateLimitedToken;

/// The requests a caller made in the current window, and when it began (nanoseconds
/// on a monotonic clock).
#[derive(Debug, Clone, Copy, PartialEq, Eq, Structural)]
pub struct RateWindow {
    pub count: usize,
    pub started: u128,
}

/// Who a request is counted against: its bearer token (trimmed), else its client
/// address, else `unknown`.
pub open spec fn caller_of(auth: Option<Seq<char>>, ip: Option<Seq<char>>) -> Seq<char> {
    if auth is Some && is_prefix("Bearer "@, auth->0) {
        trimmed(auth->0.skip(7))
    } else {
        match ip {
            Some(a) => a,
            None => "unknown"@,
        }
    }
}

impl RateLimitedToken {
    /// Who a request is counted against.
    pub fn caller(auth: Option<&str>, ip: Option<String>) -> (r: String)
        ensures
            r@ == caller_of(
                match auth {
                    Some(a) => Some(a@),
                    None => None,
                },
                match ip {
                    Some(a) => Some(a@),
                    None => None,
                },
            ),
    {
        proof {
            reveal_strlit("Bearer ");
            assert("Bearer "@.len() == 7);
        }
        if let Some(h) = auth {
            if starts_with(h, "Bearer ") {
                let v = chars_of(h);
                let mut rest: Vec<char> = Vec::new();
                let mut i: usize = 7;
                while i < v.len()
                    invariant
                        7 <= i <= v@.len(),
                        v@ == h@,
                        rest@ == v@.subrange(7, i as int),
                    decreases v.len() - i,
                {
                    rest.push(v[i]);
                    assert(rest@ =~= v@.subrange(7, i + 1));
                    i = i + 1;
                }
                assert(rest@ =~= h@.skip(7));
                return trim(string_from_chars(&rest).as_str());
            }
        }
        match ip {
            Some(a) => a,
            None => owned("unknown"),
        }
    }

    /// One request of a caller at instant `now`, whose window so far is `entry` (none
    /// for a new caller): see `rate_step`.
    pub fn register_request(entry: Option<RateWindow>, now: u128) -> (r: (bool, RateWindow))
        ensures
            r == rate_step(entry, now),
    {
        let w = match entry {
            Some(e) => if now > e.started && now - e.started > WINDOW_NANOS {
                RateWindow { count: 0, started: now }
            } else {
                e
            },
            None => RateWindow { count: 0, started: now },
        };
        if w.count >= RATE_LIMIT {
            (false, w)
        } else {
            (true, RateWindow { count: w.count + 1, started: w.started })
        }
    }
}

/// The window a request at `now` counts in: a new caller's or one older than 60
/// seconds starts over at `now`.
pub open spec fn current_window(entry: Option<RateWindow>, now: u128) -> RateWindow {
    match entry {
        Some(e) => if now > e.started && now - e.started > WINDOW_NANOS {
            RateWindow { count: 0, started: now }
        } else {
            e
        },
        None => RateWindow { count: 0, started: now },
    }
}

/// Whether a request at `now` passes, and the caller's window after it: a caller at
/// the limit is refused and its window kept; else the request is counted.
pub open spec fn rate_step(entry: Option<RateWindow>, now: u128) -> (bool, RateWindow) {
    let w = current_window(entry, now);
    if w.count >= RATE_LIMIT {
        (false, w)
    } else {
        (true, RateWindow { count: (w.count + 1) as usize, started: w.started })
    }
}

/// No window ever counts more than the limit: from a window within it, every request
/// leaves a window within it.
pub proof fn lemma_window_stays_within_limit(entry: Option<RateWindow>, now: u128)
    requires
        entry matches Some(e) ==> e.count <= RATE_LIMIT,
    ensures
        rate_step(entry, now).1.count <= RATE_LIMIT,
{
}

/// A request is refused only when its window already holds the limit.
pub proof fn lemma_refused_only_at_limit(entry: Option<RateWindow>, now: u128)
    requires
        !rate_step(entry, now).0,
    ensures
        current_window(entry, now).count >= RATE_LIMIT,
{
}

} // verus!
