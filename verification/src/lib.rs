//! Core of an event-beacon collector: an authenticated ingress handler, a
//! bounded in-memory FIFO queue, and the retry/backoff policy of the
//! background persistence worker.

pub mod auth;
pub mod event;
pub mod ingress;
pub mod persist;
pub mod queue;

pub use auth::{authorized, bearer_prefix, constant_time_eq, header_view, is_authorized};
pub use event::{capture_event, Event, EventParams};
pub use ingress::{event_handler, IngressStatus};
pub use persist::{
    backoff_delay_ms, build_fields, persist_with_retry, retry_step, run_worker, EventFate,
    PersistOutcome, ProcessedEvent, RetryDecision, RetryReport, BACKOFF_BASE_MS, MAX_ATTEMPTS,
};
pub use queue::BoundedQueue;
