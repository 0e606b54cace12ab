//! The ingress handler: authenticates a request, builds the event, and
//! attempts one non-blocking enqueue.

use vstd::prelude::*;
use crate::auth::{authorized, header_view, is_authorized};
use crate::event::{capture_event, opt_view, EventParams};
use crate::queue::BoundedQueue;

verus! {

/// What the handler answers for one request, mirroring the HTTP status:
/// accepted (the event is buffered, nothing more), unauthorized, or service
/// unavailable (the queue was full and the event was shed).
#[derive(Clone, Copy, Debug, PartialEq, Eq, Structural)]
pub enum IngressStatus {
    Accepted,
    Unauthorized,
    ServiceUnavailable,
}

impl IngressStatus {
    /// The HTTP status code this answer is sent as.
    pub fn status_code(&self) -> (c: u16)
        ensures
            *self == IngressStatus::Accepted ==> c == 200,
            *self == IngressStatus::Unauthorized ==> c == 401,
            *self == IngressStatus::ServiceUnavailable ==> c == 503,
    {
        match self {
            IngressStatus::Accepted => 200,
            IngressStatus::Unauthorized => 401,
            IngressStatus::ServiceUnavailable => 503,
        }
    }
}

/// Handles one ingress request. An unauthorized request is rejected with no
/// side effect at all. An authorized one becomes exactly one immutable event
/// carrying the given parameters, user agent and client IP, and exactly one
/// non-blocking enqueue is attempted: with room in the queue the event is
/// appended (every buffered event kept in place and in order) and the request
/// is accepted; with the queue full the event is shed immediately and the
/// handler answers service-unavailable without ever waiting for capacity.
pub fn event_handler(
    queue: &mut BoundedQueue,
    secret: &[u8],
    auth_header: Option<&[u8]>,
    params: EventParams,
    user_agent: Option<String>,
    ip: String,
) -> (r: IngressStatus)
    requires
        old(queue).wf(),
    ensures
        final(queue).wf(),
        final(queue).cap() == old(queue).cap(),
        !authorized(header_view(auth_header), secret@) ==> r == IngressStatus::Unauthorized && final(queue)@
            == old(queue)@,
        authorized(header_view(auth_header), secret@) && old(queue)@.len() < old(queue).cap() ==> {
            &&& r == IngressStatus::Accepted
            &&& final(queue)@.len() == old(queue)@.len() + 1
            &&& final(queue)@.subrange(0, old(queue)@.len() as int) == old(queue)@
            &&& final(queue)@.last().params == params@
            &&& final(queue)@.last().user_agent == opt_view(user_agent)
            &&& final(queue)@.last().ip == ip@
        },
        authorized(header_view(auth_header), secret@) && old(queue)@.len() >= old(queue).cap() ==> r
            == IngressStatus::ServiceUnavailable && final(queue)@ == old(queue)@,
{
    if !is_authorized(auth_header, secret) {
        return IngressStatus::Unauthorized;
    }
    let ev = capture_event(params, user_agent, ip);
    if queue.try_push(ev) {
        proof {
            assert(queue@.subrange(0, old(queue)@.len() as int) =~= old(queue)@);
        }
        IngressStatus::Accepted
    } else {
        IngressStatus::ServiceUnavailable
    }
}

} // verus!
