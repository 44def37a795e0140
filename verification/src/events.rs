//! The outbound requests that async callers hand to the swarm driver.
//!
//! Every request that expects an answer carries a fresh `ticket`: the
//! identity of its single-use reply channel. The embedding program pairs each
//! ticket with a one-shot completion handle; the driver answers a request at
//! most once, under its ticket.

use vstd::prelude::*;

use crate::model::{BitswapMessage, Cid, ConnectionId, PeerId};

verus! {

/// A request travelling from an async caller to the swarm driver.
pub enum OutEvent {
    /// Request a connection to `peer`; the reply under `ticket` resolves to a
    /// connection handle and negotiated protocol, or a refusal reason.
    Dial {
        /// The peer to connect to.
        peer: PeerId,
        /// Identity of the single-use reply channel.
        ticket: u64,
    },
    /// Request delivery of `message` to `peer`; the reply under `ticket`
    /// resolves to success or a [`SendError`].
    SendMessage {
        /// The destination peer.
        peer: PeerId,
        /// The encoded message to deliver.
        message: BitswapMessage,
        /// Identity of the single-use reply channel.
        ticket: u64,
        /// Established connection to pin the delivery to, if the caller has
        /// one; otherwise the driver picks or opens a connection.
        connection_id: Option<ConnectionId>,
    },
    /// An auxiliary event for the driver.
    GenerateEvent(BitswapEvent),
}

/// Auxiliary informational or fire-and-forget events.
pub enum BitswapEvent {
    /// Measure the round-trip time to `peer`; the reply under `ticket`
    /// resolves to a measurement or to "no measurement available".
    Ping {
        /// The peer to measure.
        peer: PeerId,
        /// Identity of the single-use reply channel.
        ticket: u64,
    },
    /// Query which peers provide `key`; replies stream in under `ticket`
    /// until the driver closes the reply channel.
    FindProviders {
        /// The content key queried.
        key: Cid,
        /// Identity of the multi-value reply channel.
        ticket: u64,
    },
    /// Announce that this node provides `key`; fire-and-forget, no reply.
    Provide {
        /// The content key announced.
        key: Cid,
    },
}

/// A per-attempt delivery failure reported by the driver.
#[derive(Clone, Debug)]
pub enum SendError {
    /// The peer cannot speak this protocol; fatal, retrying cannot help.
    ProtocolNotSupported,
    /// A transient network, timeout or channel failure with its reason.
    Other(String),
}

/// The ticket of an event's reply channel, if the event expects a reply.
pub open spec fn event_ticket(ev: OutEvent) -> Option<u64> {
    match ev {
        OutEvent::Dial { ticket, .. } => Some(ticket),
        OutEvent::SendMessage { ticket, .. } => Some(ticket),
        OutEvent::GenerateEvent(BitswapEvent::Ping { ticket, .. }) => Some(ticket),
        OutEvent::GenerateEvent(BitswapEvent::FindProviders { ticket, .. }) => Some(ticket),
        OutEvent::GenerateEvent(BitswapEvent::Provide { .. }) => None,
    }
}

/// Every reply ticket in `evs` is below the bound `n`.
pub open spec fn tickets_below(evs: Seq<OutEvent>, n: u64) -> bool {
    forall|i: int|
        0 <= i < evs.len() ==> match event_ticket(#[trigger] evs[i]) {
            Some(t) => t < n,
            None => true,
        }
}

/// Reply tickets appear in strictly increasing order along `evs`.
pub open spec fn tickets_increasing(evs: Seq<OutEvent>) -> bool {
    forall|i: int, j: int|
        0 <= i < j < evs.len() ==> match (
            event_ticket(#[trigger] evs[i]),
            event_ticket(#[trigger] evs[j]),
        ) {
            (Some(ti), Some(tj)) => ti < tj,
            _ => true,
        }
}

/// No two events in `evs` carry the same reply ticket: each pending request
/// owns exactly one single-use reply channel.
pub open spec fn tickets_distinct(evs: Seq<OutEvent>) -> bool {
    forall|i: int, j: int|
        0 <= i < j < evs.len() ==> match (
            event_ticket(#[trigger] evs[i]),
            event_ticket(#[trigger] evs[j]),
        ) {
            (Some(ti), Some(tj)) => ti != tj,
            _ => true,
        }
}

} // verus!
