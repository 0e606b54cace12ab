use corewatch::{BoundedQueue, Event, EventParams};

fn tagged_event(tag: &str) -> Event {
    Event {
        params: EventParams {
            event: tag.to_string(),
            url: None,
            referrer: None,
        },
        timestamp_ms: 0,
        user_agent: None,
        ip: "203.0.113.9".to_string(),
    }
}

#[test]
fn new_queue_is_empty() {
    let q = BoundedQueue::new(10_000);
    assert_eq!(q.len(), 0);
    assert_eq!(q.capacity(), 10_000);
}

#[test]
fn pop_on_empty_returns_none() {
    let mut q = BoundedQueue::new(4);
    assert!(q.pop().is_none());
    assert_eq!(q.len(), 0);
}

#[test]
fn enqueue_to_capacity_then_shed() {
    let capacity: usize = 3;
    let mut q = BoundedQueue::new(capacity);
    for i in 0..capacity {
        assert!(q.try_push(tagged_event(&format!("e{i}"))));
    }
    assert_eq!(q.len(), capacity);
    // The (capacity + 1)-th non-blocking enqueue fails immediately...
    assert!(!q.try_push(tagged_event("overflow")));
    assert_eq!(q.len(), capacity);
    // ...and no already-enqueued event was evicted or reordered.
    for i in 0..capacity {
        let ev = q.pop().expect("queue should still hold every accepted event");
        assert_eq!(ev.params.event, format!("e{i}"));
    }
    assert!(q.pop().is_none());
}

#[test]
fn events_leave_in_fifo_order() {
    let n: usize = 10;
    let mut q = BoundedQueue::new(n);
    for i in 0..n {
        assert!(q.try_push(tagged_event(&format!("tag-{i}"))));
    }
    for i in 0..n {
        let ev = q.pop().expect("one event per push");
        assert_eq!(ev.params.event, format!("tag-{i}"));
    }
    assert!(q.pop().is_none());
}

#[test]
fn capacity_is_fixed() {
    let mut q = BoundedQueue::new(2);
    assert!(q.try_push(tagged_event("a")));
    assert_eq!(q.capacity(), 2);
    assert!(q.try_push(tagged_event("b")));
    assert!(!q.try_push(tagged_event("c")));
    assert_eq!(q.capacity(), 2);
    q.pop();
    assert_eq!(q.capacity(), 2);
}

#[test]
fn zero_capacity_sheds_everything() {
    let mut q = BoundedQueue::new(0);
    assert!(!q.try_push(tagged_event("a")));
    assert_eq!(q.len(), 0);
}
