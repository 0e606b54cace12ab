//! The bounded in-memory FIFO queue between the ingress handlers (the
//! producers) and the persistence worker (the single consumer).

use vstd::prelude::*;
use crate::event::{Event, EventV};

verus! {

/// A fixed-capacity FIFO buffer of events. The capacity is set once at
/// construction and never changes; producers use the non-blocking `try_push`,
/// which sheds load (fails immediately) once the capacity is reached, and the
/// single consumer removes events with `pop` in exactly insertion order.
pub struct BoundedQueue {
    items: Vec<Event>,
    capacity: usize,
}

impl View for BoundedQueue {
    type V = Seq<EventV>;

    closed spec fn view(&self) -> Seq<EventV> {
        self.items@.map_values(|e: Event| e@)
    }
}

impl BoundedQueue {
    /// The fixed capacity the queue was created with.
    pub closed spec fn cap(&self) -> nat {
        self.capacity as nat
    }

    /// Well-formedness: the queue never holds more events than its capacity.
    pub closed spec fn wf(&self) -> bool {
        self@.len() <= self.cap()
    }

    /// Creates an empty queue with the given fixed capacity.
    pub fn new(capacity: usize) -> (q: BoundedQueue)
        ensures
            q.wf(),
            q@ == Seq::<EventV>::empty(),
            q.cap() == capacity,
    {
        let q = BoundedQueue { items: Vec::new(), capacity };
        proof {
            assert(q@ =~= Seq::<EventV>::empty());
        }
        q
    }

    /// How many events are buffered right now.
    pub fn len(&self) -> (n: usize)
        ensures
            n == self@.len(),
    {
        self.items.len()
    }

    /// The fixed capacity.
    pub fn capacity(&self) -> (c: usize)
        ensures
            c == self.cap(),
    {
        self.capacity
    }

    /// Non-blocking enqueue. Succeeds exactly when there is room, appending
    /// the event at the back; when the queue is full it fails immediately,
    /// leaving every buffered event in place and in order (load shedding,
    /// never waiting).
    pub fn try_push(&mut self, ev: Event) -> (ok: bool)
        requires
            old(self).wf(),
        ensures
            final(self).wf(),
            final(self).cap() == old(self).cap(),
            ok == (old(self)@.len() < old(self).cap()),
            ok ==> final(self)@ == old(self)@.push(ev@),
            !ok ==> final(self)@ == old(self)@,
    {
        if self.items.len() < self.capacity {
            self.items.push(ev);
            proof {
                assert(self@ =~= old(self)@.push(ev@));
            }
            true
        } else {
            false
        }
    }

    /// An enqueue never evicts or reorders: every event buffered before it
    /// keeps its position, and the new event stands last.
    pub proof fn lemma_push_preserves_buffered(s: Seq<EventV>, e: EventV)
        ensures
            s.push(e).len() == s.len() + 1,
            s.push(e).subrange(0, s.len() as int) == s,
            s.push(e).last() == e,
    {
        assert(s.push(e).subrange(0, s.len() as int) =~= s);
    }

    /// Strict FIFO: after `k` dequeues the queue holds the events enqueued
    /// from position `k` on, and the next dequeue returns the event that was
    /// enqueued `k`-th — dequeue order is exactly enqueue order.
    pub proof fn lemma_fifo_order(s: Seq<EventV>, k: int)
        requires
            0 <= k < s.len(),
        ensures
            s.skip(k)[0] == s[k],
            s.skip(k).drop_first() == s.skip(k + 1),
    {
        assert(s.skip(k).drop_first() =~= s.skip(k + 1));
    }

    /// Dequeue for the single consumer: removes and returns the oldest
    /// buffered event (strict FIFO), or `None` when the queue is empty.
    pub fn pop(&mut self) -> (r: Option<Event>)
        requires
            old(self).wf(),
        ensures
            final(self).wf(),
            final(self).cap() == old(self).cap(),
            old(self)@.len() == 0 ==> r is None && final(self)@ == old(self)@,
            old(self)@.len() > 0 ==> {
                &&& r is Some
                &&& r->0@ == old(self)@[0]
                &&& final(self)@ == old(self)@.drop_first()
            },
    {
        if self.items.len() == 0 {
            None
        } else {
            let e = self.items.remove(0);
            proof {
                assert(self@ =~= old(self)@.drop_first());
            }
            Some(e)
        }
    }
}

} // verus!
