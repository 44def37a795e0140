//! The network handle that async callers share: it owns the bounded outbound
//! queue, allocates reply tickets, and classifies the driver's replies.
//!
//! Operations that must await a reply or a timer are split in two: a `begin_`
//! method enqueues the request and returns its ticket, and a `finish_`
//! function turns the observed reply (or its absence) into the caller-visible
//! result. The embedding program awaits between the two; nothing here blocks.

use vstd::prelude::*;

use crate::events::{
    event_ticket, tickets_below, tickets_distinct, tickets_increasing, BitswapEvent, OutEvent,
};
use crate::model::{Cid, ConnectionId, PeerId, ProtocolId};
use crate::queue::{OutQueue, QueueFull};

verus! {

/// Fixed timeout for dials performed implicitly while sending, in
/// milliseconds.
pub const CONNECT_TIMEOUT_MS: u64 = 5_000;

/// Overall timeout for a ping operation, in milliseconds.
pub const PING_TIMEOUT_MS: u64 = 30_000;

/// Capacity of the outbound event queue: how many requests may be
/// outstanding toward the swarm driver.
pub const QUEUE_CAPACITY: usize = 1024;

/// Capacity of the multi-value reply channel of a provider query.
pub const FIND_PROVIDERS_REPLY_CAPACITY: usize = 16;

/// Why a dial failed.
#[derive(Debug, PartialEq, Eq)]
pub enum DialError {
    /// The outbound queue was full; reported immediately, without waiting.
    QueueFull,
    /// The dial timeout elapsed before the driver replied.
    Timeout,
    /// The driver reported this refusal reason.
    Refused(String),
    /// The driver dropped the reply channel without completing it.
    Dropped,
}

/// What a dial's await observed.
pub enum DialReply {
    /// The driver completed the reply: connection established, protocol
    /// negotiated.
    Connected(ConnectionId, ProtocolId),
    /// The driver completed the reply with a refusal reason.
    Refused(String),
    /// The driver dropped the reply channel without completing it.
    Dropped,
    /// The supplied timeout elapsed first.
    TimedOut,
}

/// Why a ping failed.
#[derive(Debug, PartialEq, Eq)]
pub enum PingError {
    /// The outbound queue was full; reported immediately, without waiting.
    QueueFull,
    /// The driver reported that no measurement is available.
    Unavailable,
    /// The 30 s ping timeout elapsed before the driver replied.
    Timeout,
    /// The driver dropped the reply channel without completing it.
    Dropped,
}

/// What a ping's await observed.
pub enum PingReply {
    /// A round-trip measurement in milliseconds.
    Measured(u64),
    /// The driver had no measurement available.
    NoMeasurement,
    /// The driver dropped the reply channel without completing it.
    Dropped,
    /// The 30 s ping timeout elapsed first.
    TimedOut,
}

/// The dial result owed for each observed reply: success exactly on a
/// completed, successful negotiation.
pub open spec fn dial_outcome_spec(reply: DialReply) -> Result<
    (ConnectionId, ProtocolId),
    DialError,
> {
    match reply {
        DialReply::Connected(c, p) => Ok((c, p)),
        DialReply::Refused(reason) => Err(DialError::Refused(reason)),
        DialReply::Dropped => Err(DialError::Dropped),
        DialReply::TimedOut => Err(DialError::Timeout),
    }
}

/// The ping result owed for each observed reply: success exactly on a real
/// measurement, never a zero duration in place of "unavailable".
pub open spec fn ping_outcome_spec(reply: PingReply) -> Result<u64, PingError> {
    match reply {
        PingReply::Measured(ms) => Ok(ms),
        PingReply::NoMeasurement => Err(PingError::Unavailable),
        PingReply::Dropped => Err(PingError::Dropped),
        PingReply::TimedOut => Err(PingError::Timeout),
    }
}

/// The shared network component: the outbound queue, the local identity it
/// was initialized with, and the counter that makes reply tickets unique.
pub struct Network {
    queue: OutQueue,
    self_id: PeerId,
    next_ticket: u64,
}

impl Network {
    /// The queued outbound requests, oldest first.
    pub closed spec fn events(&self) -> Seq<OutEvent> {
        self.queue@
    }

    /// The queue's fixed capacity.
    pub closed spec fn cap(&self) -> nat {
        self.queue.cap()
    }

    /// The local peer identity supplied at initialization.
    pub closed spec fn self_id_spec(&self) -> PeerId {
        self.self_id
    }

    /// The next reply ticket to be handed out.
    pub closed spec fn ticket_counter(&self) -> u64 {
        self.next_ticket
    }

    /// The queue is at capacity: the next enqueue fails.
    pub open spec fn is_full(&self) -> bool {
        self.events().len() >= self.cap()
    }

    /// Capacity and local identity are those of `pre`.
    pub open spec fn same_config(self, pre: Network) -> bool {
        self.cap() == pre.cap() && self.self_id_spec() == pre.self_id_spec()
    }

    /// Nothing observable changed relative to `pre`.
    pub open spec fn unchanged(self, pre: Network) -> bool {
        self.same_config(pre) && self.events() == pre.events() && self.ticket_counter()
            == pre.ticket_counter()
    }

    /// Exactly `ev` was appended relative to `pre`; the ticket counter
    /// advanced by one if `ev` consumed a fresh ticket.
    pub open spec fn pushed(self, pre: Network, ev: OutEvent) -> bool {
        self.same_config(pre) && self.events() == pre.events().push(ev) && self.ticket_counter()
            == pre.ticket_counter() + (if event_ticket(ev) is Some {
            1int
        } else {
            0int
        })
    }

    /// Structural invariant: a well-formed queue whose reply tickets are all
    /// below the counter and strictly increasing from front to back.
    pub closed spec fn wf(&self) -> bool {
        &&& self.queue.wf()
        &&& tickets_below(self.queue@, self.next_ticket)
        &&& tickets_increasing(self.queue@)
    }

    /// Law: in a well-formed network no two queued requests share a reply
    /// ticket — each pending request owns exactly one single-use reply
    /// channel.
    pub proof fn lemma_tickets_distinct(&self)
        requires
            self.wf(),
        ensures
            tickets_distinct(self.events()),
    {
    }

    /// A fresh network component for the given local identity: empty queue of
    /// the default capacity, no tickets handed out yet.
    pub fn new(self_id: PeerId) -> (n: Network)
        ensures
            n.wf(),
            n.events() == Seq::<OutEvent>::empty(),
            n.cap() == QUEUE_CAPACITY as nat,
            n.self_id_spec() == self_id,
            n.ticket_counter() == 0,
    {
        Network { queue: OutQueue::new(QUEUE_CAPACITY), self_id, next_ticket: 0 }
    }

    /// The local peer identity supplied at initialization.
    pub fn self_id(&self) -> (r: &PeerId)
        ensures
            *r == self.self_id_spec(),
    {
        &self.self_id
    }

    /// How many reply tickets have been handed out so far; callers check
    /// this against `u64::MAX` before an operation that needs a fresh one.
    pub fn tickets_issued(&self) -> (t: u64)
        ensures
            t == self.ticket_counter(),
    {
        self.next_ticket
    }

    /// Enqueues `ev`, which must carry `old(self).ticket_counter()` as its
    /// ticket if it carries one, and advances the counter on success.
    pub(crate) fn enqueue_fresh(&mut self, ev: OutEvent) -> (r: Result<(), QueueFull>)
        requires
            old(self).wf(),
            old(self).ticket_counter() < u64::MAX,
            match event_ticket(ev) {
                Some(t) => t == old(self).ticket_counter(),
                None => true,
            },
        ensures
            final(self).wf(),
            old(self).is_full() ==> r == Err::<(), QueueFull>(QueueFull) && final(self).unchanged(
                *old(self),
            ),
            !old(self).is_full() ==> r == Ok::<(), QueueFull>(()) && final(self).pushed(
                *old(self),
                ev,
            ),
    {
        let ghost evs0 = self.queue@;
        let uses_ticket = event_ticket_present(&ev);
        match self.queue.enqueue(ev) {
            Ok(()) => {
                proof {
                    let evs = self.queue@;
                    assert forall|i: int, j: int| 0 <= i < j < evs.len() implies match (
                        event_ticket(#[trigger] evs[i]),
                        event_ticket(#[trigger] evs[j]),
                    ) {
                        (Some(ti), Some(tj)) => ti < tj,
                        _ => true,
                    } by {
                        if j < evs.len() - 1 {
                            assert(evs[i] == evs0[i] && evs[j] == evs0[j]);
                        } else {
                            assert(evs[j] == ev && evs[i] == evs0[i]);
                        }
                    }
                }
                if uses_ticket {
                    self.next_ticket = self.next_ticket + 1;
                }
                Ok(())
            },
            Err(e) => Err(e),
        }
    }

    /// Requests a connection to `peer`: enqueues a dial request under a fresh
    /// ticket, or fails immediately with [`DialError::QueueFull`] when the
    /// queue is at capacity. The caller awaits the reply under the returned
    /// ticket (or its own timeout) and classifies it with [`finish_dial`].
    pub fn begin_dial(&mut self, peer: PeerId) -> (r: Result<u64, DialError>)
        requires
            old(self).wf(),
            old(self).ticket_counter() < u64::MAX,
        ensures
            final(self).wf(),
            old(self).is_full() ==> r == Err::<u64, DialError>(DialError::QueueFull) && final(self).unchanged(*old(self)),
            !old(self).is_full() ==> r == Ok::<u64, DialError>(old(self).ticket_counter()) && final(self).pushed(*old(self), OutEvent::Dial { peer, ticket: old(self).ticket_counter() }),
    {
        let ticket = self.next_ticket;
        match self.enqueue_fresh(OutEvent::Dial { peer, ticket }) {
            Ok(()) => Ok(ticket),
            Err(QueueFull) => Err(DialError::QueueFull),
        }
    }

    /// Requests a round-trip measurement to `peer` under a fresh ticket, or
    /// fails immediately with [`PingError::QueueFull`]. The caller awaits the
    /// reply for at most [`PING_TIMEOUT_MS`] and classifies it with
    /// [`finish_ping`].
    pub fn begin_ping(&mut self, peer: &PeerId) -> (r: Result<u64, PingError>)
        requires
            old(self).wf(),
            old(self).ticket_counter() < u64::MAX,
        ensures
            final(self).wf(),
            old(self).is_full() ==> r == Err::<u64, PingError>(PingError::QueueFull) && final(self).unchanged(*old(self)),
            !old(self).is_full() ==> r == Ok::<u64, PingError>(old(self).ticket_counter()) && final(self).pushed(
                *old(self),
                OutEvent::GenerateEvent(
                    BitswapEvent::Ping { peer: *peer, ticket: old(self).ticket_counter() },
                ),
            ),
    {
        let ticket = self.next_ticket;
        match self.enqueue_fresh(
            OutEvent::GenerateEvent(BitswapEvent::Ping { peer: *peer, ticket }),
        ) {
            Ok(()) => Ok(ticket),
            Err(QueueFull) => Err(PingError::QueueFull),
        }
    }

    /// Queries which peers provide `key` under a fresh ticket, or fails
    /// immediately with [`QueueFull`]. Replies stream in under the ticket,
    /// over a channel of capacity [`FIND_PROVIDERS_REPLY_CAPACITY`], until the
    /// driver closes it.
    pub fn find_providers(&mut self, key: Cid) -> (r: Result<u64, QueueFull>)
        requires
            old(self).wf(),
            old(self).ticket_counter() < u64::MAX,
        ensures
            final(self).wf(),
            old(self).is_full() ==> r == Err::<u64, QueueFull>(QueueFull) && final(self).unchanged(
                *old(self),
            ),
            !old(self).is_full() ==> r == Ok::<u64, QueueFull>(old(self).ticket_counter()) && final(self).pushed(
                *old(self),
                OutEvent::GenerateEvent(
                    BitswapEvent::FindProviders { key, ticket: old(self).ticket_counter() },
                ),
            ),
    {
        let ticket = self.next_ticket;
        match self.enqueue_fresh(
            OutEvent::GenerateEvent(BitswapEvent::FindProviders { key, ticket }),
        ) {
            Ok(()) => Ok(ticket),
            Err(e) => Err(e),
        }
    }

    /// Fire-and-forget announcement that this node provides `key`; fails only
    /// when the queue is full, and carries no reply channel.
    pub fn provide(&mut self, key: Cid) -> (r: Result<(), QueueFull>)
        requires
            old(self).wf(),
        ensures
            final(self).wf(),
            old(self).is_full() ==> r == Err::<(), QueueFull>(QueueFull) && final(self).unchanged(
                *old(self),
            ),
            !old(self).is_full() ==> r == Ok::<(), QueueFull>(()) && final(self).pushed(
                *old(self),
                OutEvent::GenerateEvent(BitswapEvent::Provide { key }),
            ),
    {
        self.enqueue_no_ticket(OutEvent::GenerateEvent(BitswapEvent::Provide { key }))
    }

    /// Enqueues an event that carries no reply ticket.
    fn enqueue_no_ticket(&mut self, ev: OutEvent) -> (r: Result<(), QueueFull>)
        requires
            old(self).wf(),
            event_ticket(ev) is None,
        ensures
            final(self).wf(),
            old(self).is_full() ==> r == Err::<(), QueueFull>(QueueFull) && final(self).unchanged(
                *old(self),
            ),
            !old(self).is_full() ==> r == Ok::<(), QueueFull>(()) && final(self).pushed(
                *old(self),
                ev,
            ),
    {
        let ghost evs0 = self.queue@;
        let r = self.queue.enqueue(ev);
        proof {
            if r is Ok {
                let evs = self.queue@;
                assert forall|i: int, j: int| 0 <= i < j < evs.len() implies match (
                    event_ticket(#[trigger] evs[i]),
                    event_ticket(#[trigger] evs[j]),
                ) {
                    (Some(ti), Some(tj)) => ti < tj,
                    _ => true,
                } by {
                    if j < evs.len() - 1 {
                        assert(evs[i] == evs0[i] && evs[j] == evs0[j]);
                    } else {
                        assert(event_ticket(evs[j]) is None && evs[i] == evs0[i]);
                    }
                }
            }
        }
        r
    }

    /// Advisory hint that `peer` matters for `tag` with the given weight;
    /// currently a deliberate no-op placeholder, kept so call sites are
    /// unaffected when a real connection-priority mechanism is wired in.
    pub fn tag_peer(&self, peer: &PeerId, tag: &str, value: usize) {
        let _ = peer;
        let _ = tag;
        let _ = value;
    }

    /// Advisory removal of a tag; currently a deliberate no-op placeholder.
    pub fn untag_peer(&self, peer: &PeerId, tag: &str) {
        let _ = peer;
        let _ = tag;
    }

    /// Advisory request to keep `peer`'s connection; currently a deliberate
    /// no-op placeholder.
    pub fn protect_peer(&self, peer: &PeerId, tag: &str) {
        let _ = peer;
        let _ = tag;
    }

    /// Advisory release of a protection; currently a deliberate no-op
    /// placeholder that never reports an existing protection.
    pub fn unprotect_peer(&self, peer: &PeerId, tag: &str) -> (r: bool)
        ensures
            r == false,
    {
        let _ = peer;
        let _ = tag;
        false
    }

    /// Non-blocking poll by the swarm driver: the oldest queued request, or
    /// `None` immediately when nothing is queued. FIFO across all producers.
    pub fn poll(&mut self) -> (r: Option<OutEvent>)
        requires
            old(self).wf(),
        ensures
            final(self).wf(),
            final(self).same_config(*old(self)),
            final(self).ticket_counter() == old(self).ticket_counter(),
            old(self).events().len() == 0 ==> r is None && final(self).events() == old(self).events(),
            old(self).events().len() > 0 ==> r == Some(old(self).events()[0]) && final(self).events() == old(self).events().drop_first(),
    {
        self.queue.poll_next()
    }

    /// Discards the handle; the queue itself lives as long as the embedding
    /// program keeps any clone of the component.
    pub fn stop(self) {
    }
}

/// Whether `ev` carries a reply ticket; executable mirror of [`event_ticket`].
fn event_ticket_present(ev: &OutEvent) -> (r: bool)
    ensures
        r == (event_ticket(*ev) is Some),
{
    match ev {
        OutEvent::GenerateEvent(BitswapEvent::Provide { .. }) => false,
        _ => true,
    }
}

/// Classifies what a dial's await observed into the caller-visible result:
/// exactly [`dial_outcome_spec`].
pub fn finish_dial(reply: DialReply) -> (r: Result<(ConnectionId, ProtocolId), DialError>)
    ensures
        r == dial_outcome_spec(reply),
{
    match reply {
        DialReply::Connected(c, p) => Ok((c, p)),
        DialReply::Refused(reason) => Err(DialError::Refused(reason)),
        DialReply::Dropped => Err(DialError::Dropped),
        DialReply::TimedOut => Err(DialError::Timeout),
    }
}

/// Classifies what a ping's await observed into the caller-visible result:
/// exactly [`ping_outcome_spec`].
pub fn finish_ping(reply: PingReply) -> (r: Result<u64, PingError>)
    ensures
        r == ping_outcome_spec(reply),
{
    match reply {
        PingReply::Measured(ms) => Ok(ms),
        PingReply::NoMeasurement => Err(PingError::Unavailable),
        PingReply::Dropped => Err(PingError::Dropped),
        PingReply::TimedOut => Err(PingError::Timeout),
    }
}

} // verus!
