//! The bounded outbound-event queue between async callers and the swarm
//! driver: FIFO, fixed positive capacity, and strictly non-blocking on both
//! ends. Enqueueing onto a full queue fails immediately; polling an empty
//! queue returns immediately with nothing.

use vstd::prelude::*;

use crate::events::OutEvent;

verus! {

/// Backpressure signal: the outbound queue is at capacity. Callers treat this
/// as a transient, immediately-reportable error; nothing retries it silently.
#[derive(Clone, Copy, PartialEq, Eq, Debug, Structural)]
pub struct QueueFull;

/// A bounded FIFO of outbound requests. The view is the sequence of queued
/// events, oldest first.
pub struct OutQueue {
    items: Vec<OutEvent>,
    capacity: usize,
}

impl View for OutQueue {
    type V = Seq<OutEvent>;

    closed spec fn view(&self) -> Seq<OutEvent> {
        self.items@
    }
}

impl OutQueue {
    /// The fixed capacity the queue was created with.
    pub closed spec fn cap(&self) -> nat {
        self.capacity as nat
    }

    /// The queue is at capacity: the next enqueue fails.
    pub open spec fn is_full(&self) -> bool {
        self@.len() >= self.cap()
    }

    /// Structural invariant: positive capacity, never overfull.
    pub open spec fn wf(&self) -> bool {
        self.cap() >= 1 && self@.len() <= self.cap()
    }

    /// An empty queue of the given fixed capacity.
    pub fn new(capacity: usize) -> (q: OutQueue)
        requires
            capacity >= 1,
        ensures
            q.wf(),
            q@ == Seq::<OutEvent>::empty(),
            q.cap() == capacity,
    {
        let q = OutQueue { items: Vec::new(), capacity };
        proof {
            assert(q@ =~= Seq::<OutEvent>::empty());
        }
        q
    }

    /// How many requests are queued.
    pub fn len(&self) -> (n: usize)
        ensures
            n == self@.len(),
    {
        self.items.len()
    }

    /// Non-blocking enqueue: appends `ev` in FIFO order, or fails immediately
    /// with [`QueueFull`] when the queue is at capacity, leaving it unchanged.
    pub fn enqueue(&mut self, ev: OutEvent) -> (r: Result<(), QueueFull>)
        requires
            old(self).wf(),
        ensures
            final(self).wf(),
            final(self).cap() == old(self).cap(),
            old(self).is_full() ==> r == Err::<(), QueueFull>(QueueFull) && final(self)@ == old(
                self,
            )@,
            !old(self).is_full() ==> r == Ok::<(), QueueFull>(()) && final(self)@ == old(
                self,
            )@.push(ev),
    {
        if self.items.len() >= self.capacity {
            Err(QueueFull)
        } else {
            self.items.push(ev);
            Ok(())
        }
    }

    /// Non-blocking poll by the swarm driver: removes and returns the oldest
    /// request, or returns immediately with `None` when the queue is empty.
    pub fn poll_next(&mut self) -> (r: Option<OutEvent>)
        requires
            old(self).wf(),
        ensures
            final(self).wf(),
            final(self).cap() == old(self).cap(),
            old(self)@.len() == 0 ==> r is None && final(self)@ == old(self)@,
            old(self)@.len() > 0 ==> r == Some(old(self)@[0]) && final(self)@ == old(
                self,
            )@.drop_first(),
    {
        if self.items.len() == 0 {
            None
        } else {
            let ev = self.items.remove(0);
            proof {
                assert(self.items@ =~= old(self)@.drop_first());
            }
            Some(ev)
        }
    }
}

} // verus!
