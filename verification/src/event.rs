//! The event model: the untrusted per-request parameters and the immutable
//! record built from them at ingress.

use vstd::prelude::*;

verus! {

/// Untrusted client input for one request: the event kind (e.g. `click`),
/// plus the optional page and referrer. Values pass through verbatim; no
/// length or charset constraint is enforced.
pub struct EventParams {
    pub event: String,
    pub url: Option<String>,
    pub referrer: Option<String>,
}

/// Mathematical model of `EventParams`: each string as a character sequence.
pub struct EventParamsV {
    pub event: Seq<char>,
    pub url: Option<Seq<char>>,
    pub referrer: Option<Seq<char>>,
}

/// The view of an optional string: its character sequence, when present.
pub open spec fn opt_view(o: Option<String>) -> Option<Seq<char>> {
    match o {
        Some(s) => Some(s@),
        None => None,
    }
}

impl View for EventParams {
    type V = EventParamsV;

    open spec fn view(&self) -> EventParamsV {
        EventParamsV {
            event: self.event@,
            url: opt_view(self.url),
            referrer: opt_view(self.referrer),
        }
    }
}

/// One immutable record of a client-reported action plus ingress metadata:
/// the capture timestamp (UTC milliseconds, set once at ingress and never
/// recomputed), the optional user agent, and the resolved client IP.
pub struct Event {
    pub params: EventParams,
    pub timestamp_ms: i64,
    pub user_agent: Option<String>,
    pub ip: String,
}

/// Mathematical model of `Event`.
pub struct EventV {
    pub params: EventParamsV,
    pub timestamp_ms: i64,
    pub user_agent: Option<Seq<char>>,
    pub ip: Seq<char>,
}

impl View for Event {
    type V = EventV;

    open spec fn view(&self) -> EventV {
        EventV {
            params: self.params@,
            timestamp_ms: self.timestamp_ms,
            user_agent: opt_view(self.user_agent),
            ip: self.ip@,
        }
    }
}

/// Relies on `chrono::Utc::now` and `chrono::DateTime::timestamp_millis`:
/// the current UTC wall-clock time in milliseconds since the Unix epoch.
/// The result depends on the clock, so nothing is promised of its value.
/// (`Utc::now` itself panics on a system clock set before the Unix epoch.)
#[verifier::external_body]
fn now_timestamp_ms() -> i64 {
    chrono::Utc::now().timestamp_millis()
}

/// Builds the immutable record for an authorized request, stamping it with
/// the current UTC time exactly once, at ingress. Everything but the
/// timestamp is carried over unchanged.
pub fn capture_event(params: EventParams, user_agent: Option<String>, ip: String) -> (ev: Event)
    ensures
        ev@.params == params@,
        ev@.user_agent == opt_view(user_agent),
        ev@.ip == ip@,
{
    Event { params, timestamp_ms: now_timestamp_ms(), user_agent, ip }
}

} // verus!
