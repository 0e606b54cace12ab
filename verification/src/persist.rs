//! The persistence worker's logic: the field mapping sent to the store, the
//! bounded retry policy with polynomial backoff, and the sequential drain of
//! the queue. The store call itself is an outside capability; the worker's
//! decisions are functions of the call's reported outcome.

use vstd::prelude::*;
use crate::event::{Event, EventV};
use crate::queue::BoundedQueue;

verus! {

/// Maximum number of persistence attempts for one event.
pub const MAX_ATTEMPTS: u32 = 3;

/// Base of the polynomial backoff schedule, in milliseconds.
pub const BACKOFF_BASE_MS: u64 = 50;

/// Outcome of one persistence call, as the store reports it: a value result,
/// an application-level non-value result, or a transport-level failure.
#[derive(Clone, Copy, Debug, PartialEq, Eq, Structural)]
pub enum PersistOutcome {
    PersistedValue,
    PersistedOther,
    TransportFailure,
}

/// How the worker's attempt sequence for one event ended: stored, rejected by
/// the store (terminal, never retried), or dropped after exhausting retries.
#[derive(Clone, Copy, Debug, PartialEq, Eq, Structural)]
pub enum EventFate {
    Persisted,
    Rejected,
    Dropped,
}

/// What the worker does next after one persistence attempt: sleep for the
/// given backoff delay and try again, or finish with the event's fate.
#[derive(Clone, Copy, Debug, PartialEq, Eq, Structural)]
pub enum RetryDecision {
    Retry { delay_ms: u64 },
    Finish { fate: EventFate },
}

/// The backoff delay inserted after the given (1-based) failed attempt:
/// it grows quadratically with the attempt number.
pub open spec fn backoff_schedule_ms(attempt: int) -> int {
    BACKOFF_BASE_MS * attempt * attempt
}

/// The retry policy: a value result finishes successfully; a non-value
/// result is terminal and never retried; a transport failure is retried
/// after the scheduled backoff until the attempt cap, then the event is
/// dropped.
pub open spec fn retry_decision(attempt: u32, outcome: PersistOutcome) -> RetryDecision {
    match outcome {
        PersistOutcome::PersistedValue => RetryDecision::Finish { fate: EventFate::Persisted },
        PersistOutcome::PersistedOther => RetryDecision::Finish { fate: EventFate::Rejected },
        PersistOutcome::TransportFailure => if attempt < MAX_ATTEMPTS {
            RetryDecision::Retry { delay_ms: backoff_schedule_ms(attempt as int) as u64 }
        } else {
            RetryDecision::Finish { fate: EventFate::Dropped }
        },
    }
}

/// Computes the delay slept after failed attempt number `attempt`, before
/// the next attempt is made.
pub fn backoff_delay_ms(attempt: u32) -> (d: u64)
    requires
        1 <= attempt < MAX_ATTEMPTS,
    ensures
        d == backoff_schedule_ms(attempt as int),
{
    let a: u64 = attempt as u64;
    proof {
        assert(BACKOFF_BASE_MS * a * a <= BACKOFF_BASE_MS * 4) by (nonlinear_arith)
            requires
                1 <= a <= 2,
        ;
    }
    BACKOFF_BASE_MS * a * a
}

/// One step of the worker's retry loop: classifies the outcome of attempt
/// number `attempt` (1-based) and decides whether to retry after a backoff
/// or to finish with the event's fate.
pub fn retry_step(attempt: u32, outcome: PersistOutcome) -> (d: RetryDecision)
    requires
        1 <= attempt <= MAX_ATTEMPTS,
    ensures
        d == retry_decision(attempt, outcome),
{
    match outcome {
        PersistOutcome::PersistedValue => RetryDecision::Finish { fate: EventFate::Persisted },
        PersistOutcome::PersistedOther => RetryDecision::Finish { fate: EventFate::Rejected },
        PersistOutcome::TransportFailure => {
            if attempt < MAX_ATTEMPTS {
                RetryDecision::Retry { delay_ms: backoff_delay_ms(attempt) }
            } else {
                RetryDecision::Finish { fate: EventFate::Dropped }
            }
        },
    }
}

/// The number of the attempt on which the retry loop stops, starting from
/// attempt number `attempt`, when attempt `k` observes `outcomes[k - 1]`:
/// the first attempt from there whose outcome is not a transport failure,
/// or the attempt cap.
pub open spec fn attempts_from(outcomes: Seq<PersistOutcome>, attempt: int) -> int
    decreases MAX_ATTEMPTS as int - attempt,
{
    if attempt >= MAX_ATTEMPTS || !(outcomes[attempt - 1] is TransportFailure) {
        attempt
    } else {
        attempts_from(outcomes, attempt + 1)
    }
}

/// How many attempts the retry loop makes in all when attempt `k` observes
/// `outcomes[k - 1]`.
pub open spec fn attempts_taken(outcomes: Seq<PersistOutcome>) -> int {
    attempts_from(outcomes, 1)
}

/// The fate of an event whose attempts observe the given outcomes: decided
/// by the outcome of the last attempt made.
pub open spec fn fate_of(outcomes: Seq<PersistOutcome>) -> EventFate {
    match outcomes[attempts_taken(outcomes) - 1] {
        PersistOutcome::PersistedValue => EventFate::Persisted,
        PersistOutcome::PersistedOther => EventFate::Rejected,
        PersistOutcome::TransportFailure => EventFate::Dropped,
    }
}

/// The retry loop, started at attempt `start`, stops exactly on attempt `k`
/// when every attempt before `k` (from `start` on) observes a transport
/// failure and `k` is the first attempt that does not — or the cap.
proof fn lemma_attempts_from_stops(outcomes: Seq<PersistOutcome>, start: int, k: int)
    requires
        1 <= start <= k <= MAX_ATTEMPTS,
        forall|i: int| start - 1 <= i < k - 1 ==> outcomes[i] is TransportFailure,
        k == MAX_ATTEMPTS || !(outcomes[k - 1] is TransportFailure),
    ensures
        attempts_from(outcomes, start) == k,
    decreases k - start,
{
    if start < k {
        lemma_attempts_from_stops(outcomes, start + 1, k);
    }
}

/// A persistence call that reports transport failures on every attempt
/// before attempt `k` and a value result on attempt `k` (within the cap)
/// results in exactly `k` attempts and exactly one success.
pub proof fn lemma_failures_then_success(outcomes: Seq<PersistOutcome>, k: int)
    requires
        outcomes.len() >= MAX_ATTEMPTS,
        1 <= k <= MAX_ATTEMPTS,
        forall|i: int| 0 <= i < k - 1 ==> outcomes[i] is TransportFailure,
        outcomes[k - 1] is PersistedValue,
    ensures
        attempts_taken(outcomes) == k,
        fate_of(outcomes) == EventFate::Persisted,
{
    lemma_attempts_from_stops(outcomes, 1, k);
}

/// A persistence call that reports a transport failure on every attempt up
/// to the cap results in no success at all: the attempt cap is reached and
/// the event is dropped.
pub proof fn lemma_all_failures_dropped(outcomes: Seq<PersistOutcome>)
    requires
        outcomes.len() >= MAX_ATTEMPTS,
        forall|i: int| 0 <= i < MAX_ATTEMPTS ==> outcomes[i] is TransportFailure,
    ensures
        attempts_taken(outcomes) == MAX_ATTEMPTS,
        fate_of(outcomes) == EventFate::Dropped,
{
    lemma_attempts_from_stops(outcomes, 1, MAX_ATTEMPTS as int);
}

/// The result of the attempt sequence for one event: how many attempts were
/// made, how the sequence ended, and the backoff delays slept between
/// consecutive attempts, in order.
pub struct RetryReport {
    pub attempts: u32,
    pub fate: EventFate,
    pub delays_ms: Vec<u64>,
}

/// Runs the bounded retry loop for one event against a script of attempt
/// outcomes (attempt `k` observes `outcomes[k - 1]`), exactly as the worker
/// runs it against the store: it stops at the first attempt that is not a
/// transport failure, never exceeds the attempt cap, and records the backoff
/// delay scheduled before each retry.
pub fn persist_with_retry(outcomes: &Vec<PersistOutcome>) -> (r: RetryReport)
    requires
        outcomes@.len() >= MAX_ATTEMPTS,
    ensures
        1 <= r.attempts <= MAX_ATTEMPTS,
        r.attempts == attempts_taken(outcomes@),
        r.fate == fate_of(outcomes@),
        r.delays_ms@.len() == r.attempts - 1,
        forall|i: int| 0 <= i < r.delays_ms@.len() ==> r.delays_ms@[i] == backoff_schedule_ms(
            i + 1,
        ),
{
    let mut attempt: u32 = 1;
    let mut delays: Vec<u64> = Vec::new();
    loop
        invariant
            1 <= attempt <= MAX_ATTEMPTS,
            outcomes@.len() >= MAX_ATTEMPTS,
            attempts_taken(outcomes@) == attempts_from(outcomes@, attempt as int),
            delays@.len() == attempt - 1,
            forall|i: int| 0 <= i < delays@.len() ==> delays@[i] == backoff_schedule_ms(i + 1),
        decreases MAX_ATTEMPTS - attempt,
    {
        let outcome = outcomes[(attempt - 1) as usize];
        match retry_step(attempt, outcome) {
            RetryDecision::Retry { delay_ms } => {
                proof {
                    let x = attempt as int;
                    assert(0 <= BACKOFF_BASE_MS * x * x <= 200) by (nonlinear_arith)
                        requires
                            1 <= x <= 2,
                    ;
                    assert(delay_ms == backoff_schedule_ms(x));
                }
                delays.push(delay_ms);
                attempt = attempt + 1;
            },
            RetryDecision::Finish { fate } => {
                proof {
                    assert(attempts_from(outcomes@, attempt as int) == attempt as int);
                }
                return RetryReport { attempts: attempt, fate, delays_ms: delays };
            },
        }
    }
}

/// The view of an executable field mapping: each name/value pair as a pair
/// of character sequences.
pub open spec fn fields_view(fields: Seq<(String, String)>) -> Seq<(Seq<char>, Seq<char>)> {
    fields.map_values(|p: (String, String)| (p.0@, p.1@))
}

/// The field mapping the worker sends to the store for one event: the event
/// kind first; the page, referrer and user agent only when present; the
/// client IP always, last.
pub open spec fn fields_of(e: EventV) -> Seq<(Seq<char>, Seq<char>)> {
    let with_event = seq![("event"@, e.params.event)];
    let with_url = if e.params.url is Some {
        with_event.push(("url"@, e.params.url->0))
    } else {
        with_event
    };
    let with_referrer = if e.params.referrer is Some {
        with_url.push(("referrer"@, e.params.referrer->0))
    } else {
        with_url
    };
    let with_ua = if e.user_agent is Some {
        with_referrer.push(("userAgent"@, e.user_agent->0))
    } else {
        with_referrer
    };
    with_ua.push(("ip"@, e.ip))
}

/// Builds the field mapping for one event, exactly as `fields_of` states it.
pub fn build_fields(ev: &Event) -> (r: Vec<(String, String)>)
    ensures
        fields_view(r@) == fields_of(ev@),
{
    let mut r: Vec<(String, String)> = Vec::new();
    r.push(("event".to_owned(), ev.params.event.clone()));
    match &ev.params.url {
        Some(u) => r.push(("url".to_owned(), u.clone())),
        None => {},
    }
    match &ev.params.referrer {
        Some(rf) => r.push(("referrer".to_owned(), rf.clone())),
        None => {},
    }
    match &ev.user_agent {
        Some(ua) => r.push(("userAgent".to_owned(), ua.clone())),
        None => {},
    }
    r.push(("ip".to_owned(), ev.ip.clone()));
    proof {
        assert(fields_view(r@) =~= fields_of(ev@));
    }
    r
}

/// One entry of the worker's log: the field mapping it sent for an event and
/// how the attempt sequence for it ended.
pub struct ProcessedEvent {
    pub fields: Vec<(String, String)>,
    pub fate: EventFate,
}

/// Drains the queue exactly as the worker does: events leave in FIFO order,
/// each gets one bounded retry sequence against its own outcome script
/// (event number `i` against `scripts[i]`), and no event's failure stops the
/// drain — the log covers every queued event, in order.
pub fn run_worker(queue: &mut BoundedQueue, scripts: &Vec<Vec<PersistOutcome>>) -> (log: Vec<
    ProcessedEvent,
>)
    requires
        old(queue).wf(),
        scripts@.len() >= old(queue)@.len(),
        forall|i: int| 0 <= i < scripts@.len() ==> scripts@[i]@.len() >= MAX_ATTEMPTS,
    ensures
        final(queue).wf(),
        final(queue).cap() == old(queue).cap(),
        final(queue)@.len() == 0,
        log@.len() == old(queue)@.len(),
        forall|i: int| 0 <= i < log@.len() ==> {
            &&& fields_view(log@[i].fields@) == fields_of(old(queue)@[i])
            &&& log@[i].fate == fate_of(scripts@[i]@)
        },
{
    let mut log: Vec<ProcessedEvent> = Vec::new();
    loop
        invariant
            queue.wf(),
            queue.cap() == old(queue).cap(),
            scripts@.len() >= old(queue)@.len(),
            forall|i: int| 0 <= i < scripts@.len() ==> scripts@[i]@.len() >= MAX_ATTEMPTS,
            log@.len() + queue@.len() == old(queue)@.len(),
            queue@ == old(queue)@.skip(log@.len() as int),
            forall|i: int| 0 <= i < log@.len() ==> {
                &&& fields_view(log@[i].fields@) == fields_of(old(queue)@[i])
                &&& log@[i].fate == fate_of(scripts@[i]@)
            },
        decreases queue@.len(),
    {
        let ghost processed = log@.len() as int;
        if queue.len() == 0 {
            return log;
        }
        let ev = queue.pop().unwrap();
        proof {
            assert(ev@ == old(queue)@.skip(processed)[0]);
            assert(old(queue)@.skip(processed)[0] == old(queue)@[processed]);
            assert(queue@ =~= old(queue)@.skip(processed + 1));
        }
        let fields = build_fields(&ev);
        let report = persist_with_retry(&scripts[log.len()]);
        log.push(ProcessedEvent { fields, fate: report.fate });
    }
}

} // verus!
