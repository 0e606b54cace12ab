use corewatch::{
    backoff_delay_ms, build_fields, persist_with_retry, retry_step, BoundedQueue, Event,
    EventFate, EventParams, PersistOutcome, RetryDecision,
};

fn full_event() -> Event {
    Event {
        params: EventParams {
            event: "click".to_string(),
            url: Some("https://x.example/p1".to_string()),
            referrer: Some("https://ref.example/".to_string()),
        },
        timestamp_ms: 1_700_000_000_000,
        user_agent: Some("agent/1.0".to_string()),
        ip: "203.0.113.9".to_string(),
    }
}

fn minimal_event(tag: &str) -> Event {
    Event {
        params: EventParams {
            event: tag.to_string(),
            url: None,
            referrer: None,
        },
        timestamp_ms: 0,
        user_agent: None,
        ip: "198.51.100.7".to_string(),
    }
}

#[test]
fn backoff_schedule_values() {
    assert_eq!(backoff_delay_ms(1), 50);
    assert_eq!(backoff_delay_ms(2), 200);
}

#[test]
fn retry_step_decisions() {
    assert_eq!(
        retry_step(1, PersistOutcome::PersistedValue),
        RetryDecision::Finish { fate: EventFate::Persisted }
    );
    assert_eq!(
        retry_step(2, PersistOutcome::PersistedOther),
        RetryDecision::Finish { fate: EventFate::Rejected }
    );
    assert_eq!(
        retry_step(1, PersistOutcome::TransportFailure),
        RetryDecision::Retry { delay_ms: 50 }
    );
    assert_eq!(
        retry_step(2, PersistOutcome::TransportFailure),
        RetryDecision::Retry { delay_ms: 200 }
    );
    assert_eq!(
        retry_step(3, PersistOutcome::TransportFailure),
        RetryDecision::Finish { fate: EventFate::Dropped }
    );
}

#[test]
fn two_failures_then_success_makes_three_attempts() {
    let outcomes = vec![
        PersistOutcome::TransportFailure,
        PersistOutcome::TransportFailure,
        PersistOutcome::PersistedValue,
    ];
    let report = persist_with_retry(&outcomes);
    assert_eq!(report.attempts, 3);
    assert_eq!(report.fate, EventFate::Persisted);
    assert_eq!(report.delays_ms, vec![50, 200]);
}

#[test]
fn all_failures_drop_after_the_cap() {
    let outcomes = vec![
        PersistOutcome::TransportFailure,
        PersistOutcome::TransportFailure,
        PersistOutcome::TransportFailure,
    ];
    let report = persist_with_retry(&outcomes);
    assert_eq!(report.attempts, 3);
    assert_eq!(report.fate, EventFate::Dropped);
    assert_eq!(report.delays_ms, vec![50, 200]);
}

#[test]
fn immediate_success_makes_one_attempt() {
    let outcomes = vec![
        PersistOutcome::PersistedValue,
        PersistOutcome::TransportFailure,
        PersistOutcome::TransportFailure,
    ];
    let report = persist_with_retry(&outcomes);
    assert_eq!(report.attempts, 1);
    assert_eq!(report.fate, EventFate::Persisted);
    assert!(report.delays_ms.is_empty());
}

#[test]
fn application_rejection_is_terminal() {
    let outcomes = vec![
        PersistOutcome::PersistedOther,
        PersistOutcome::PersistedValue,
        PersistOutcome::PersistedValue,
    ];
    let report = persist_with_retry(&outcomes);
    assert_eq!(report.attempts, 1);
    assert_eq!(report.fate, EventFate::Rejected);
    assert!(report.delays_ms.is_empty());
}

#[test]
fn rejection_after_one_failure_is_not_retried() {
    let outcomes = vec![
        PersistOutcome::TransportFailure,
        PersistOutcome::PersistedOther,
        PersistOutcome::PersistedValue,
    ];
    let report = persist_with_retry(&outcomes);
    assert_eq!(report.attempts, 2);
    assert_eq!(report.fate, EventFate::Rejected);
    assert_eq!(report.delays_ms, vec![50]);
}

#[test]
fn build_fields_with_everything_present() {
    let fields = build_fields(&full_event());
    let expected = vec![
        ("event".to_string(), "click".to_string()),
        ("url".to_string(), "https://x.example/p1".to_string()),
        ("referrer".to_string(), "https://ref.example/".to_string()),
        ("userAgent".to_string(), "agent/1.0".to_string()),
        ("ip".to_string(), "203.0.113.9".to_string()),
    ];
    assert_eq!(fields, expected);
}

#[test]
fn build_fields_with_optional_fields_absent() {
    let fields = build_fields(&minimal_event("view"));
    let expected = vec![
        ("event".to_string(), "view".to_string()),
        ("ip".to_string(), "198.51.100.7".to_string()),
    ];
    assert_eq!(fields, expected);
}

#[test]
fn worker_continues_after_a_dropped_event() {
    let mut q = BoundedQueue::new(8);
    assert!(q.try_push(minimal_event("first")));
    assert!(q.try_push(minimal_event("second")));
    let scripts = vec![
        vec![
            PersistOutcome::TransportFailure,
            PersistOutcome::TransportFailure,
            PersistOutcome::TransportFailure,
        ],
        vec![
            PersistOutcome::PersistedValue,
            PersistOutcome::PersistedValue,
            PersistOutcome::PersistedValue,
        ],
    ];
    let log = corewatch::run_worker(&mut q, &scripts);
    assert_eq!(q.len(), 0);
    assert_eq!(log.len(), 2);
    assert_eq!(log[0].fate, EventFate::Dropped);
    assert_eq!(log[0].fields[0], ("event".to_string(), "first".to_string()));
    assert_eq!(log[1].fate, EventFate::Persisted);
    assert_eq!(log[1].fields[0], ("event".to_string(), "second".to_string()));
}

#[test]
fn worker_observes_fifo_order() {
    let n: usize = 6;
    let mut q = BoundedQueue::new(n);
    for i in 0..n {
        assert!(q.try_push(minimal_event(&format!("ordered-{i}"))));
    }
    let scripts: Vec<Vec<PersistOutcome>> = (0..n)
        .map(|_| vec![PersistOutcome::PersistedValue; 3])
        .collect();
    let log = corewatch::run_worker(&mut q, &scripts);
    assert_eq!(log.len(), n);
    for (i, entry) in log.iter().enumerate() {
        assert_eq!(entry.fate, EventFate::Persisted);
        assert_eq!(entry.fields[0], ("event".to_string(), format!("ordered-{i}")));
    }
}
