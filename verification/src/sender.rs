//! The cached per-destination message sender: a completed dial bound to the
//! retry configuration, so later sends skip the dial overhead.

use vstd::prelude::*;

use crate::model::{BitswapMessage, ConnectionId, PeerId, ProtocolId};
use crate::network::Network;
use crate::retry::{RetrySend, TransientError};
use crate::timeout::MAX_SEND_TIMEOUT_MS;

verus! {

/// Retry configuration of a message sender; overridable per destination when
/// the sender is created.
#[derive(Clone, Copy, PartialEq, Eq, Debug, Structural)]
pub struct MessageSenderConfig {
    /// How many attempts each send is allowed; at least one.
    pub max_retries: usize,
    /// Overall deadline of each send, in milliseconds.
    pub send_timeout: u64,
    /// Backoff between transient failures, in milliseconds.
    pub send_error_backoff: u64,
}

impl MessageSenderConfig {
    /// The configuration admits at least one attempt.
    pub open spec fn wf(&self) -> bool {
        self.max_retries >= 1
    }
}

impl Default for MessageSenderConfig {
    /// The default configuration: three attempts, a 60 s overall deadline and
    /// a 100 ms backoff.
    fn default() -> (c: Self)
        ensures
            c.max_retries == 3,
            c.send_timeout == MAX_SEND_TIMEOUT_MS,
            c.send_error_backoff == 100,
            c.wf(),
    {
        MessageSenderConfig {
            max_retries: 3,
            send_timeout: MAX_SEND_TIMEOUT_MS,
            send_error_backoff: 100,
        }
    }
}

/// A per-destination handle binding a negotiated connection and protocol to
/// the retrying send engine. Created once per destination by dialing; reused
/// until the caller discards it. Nothing here reconnects on its own: when the
/// cached connection goes stale, sends surface transient failures and the
/// caller decides whether to dial a fresh sender.
#[derive(Clone, Copy, PartialEq, Eq, Debug, Structural)]
pub struct MessageSender {
    /// The destination peer.
    pub to: PeerId,
    /// The retry configuration fixed at creation.
    pub config: MessageSenderConfig,
    /// The connection obtained by the creating dial; immutable afterwards.
    pub connection_id: ConnectionId,
    /// The protocol negotiated by the creating dial; immutable afterwards.
    pub protocol_id: ProtocolId,
}

impl Network {
    /// Builds the per-destination handle from the result of a completed dial
    /// (performed by the runner with [`crate::network::CONNECT_TIMEOUT_MS`]).
    pub fn new_message_sender(
        &self,
        to: PeerId,
        config: MessageSenderConfig,
        connection_id: ConnectionId,
        protocol_id: ProtocolId,
    ) -> (s: MessageSender)
        ensures
            s == (MessageSender { to, config, connection_id, protocol_id }),
    {
        MessageSender { to, config, connection_id, protocol_id }
    }

    /// One-shot convenience send: the runner first dials `peer` with the
    /// default connect timeout, then drives the returned engine — a single
    /// attempt with a 100 ms backoff, no connection pinned — under the
    /// returned overall deadline, which depends only on the message size.
    pub fn send_message(&self, peer: PeerId, message: BitswapMessage) -> (r: (RetrySend, u64))
        ensures
            r.0.wf(),
            r.0.peer == peer,
            r.0.connection_id is None,
            r.0.message == message,
            r.0.retries == 1,
            r.0.backoff_ms == 100,
            r.0.attempt == 0,
            r.0.errors@ == Seq::<TransientError>::empty(),
            r.0.phase is Ready,
            r.1 == crate::timeout::send_timeout_spec(message@.len()),
    {
        let timeout_ms = crate::timeout::send_timeout(message.encoded_len());
        let engine = RetrySend::new(peer, None, message, 1, 100);
        (engine, timeout_ms)
    }
}

impl MessageSender {
    /// Capability query: does the protocol negotiated at creation speak
    /// HAVE-style responses? Purely reads the cached negotiation result;
    /// no I/O and no re-query of the network.
    pub fn supports_have(&self) -> (r: bool)
        ensures
            r == self.protocol_id.supports_have_spec(),
    {
        self.protocol_id.supports_have()
    }

    /// Starts the retrying send of `message` to the cached destination,
    /// pinned to the cached connection, with the configured retries and
    /// backoff. The runner drives the returned engine under an overall
    /// deadline of `self.config.send_timeout` milliseconds.
    pub fn send_message(&self, message: BitswapMessage) -> (m: RetrySend)
        requires
            self.config.wf(),
        ensures
            m.wf(),
            m.peer == self.to,
            m.connection_id == Some(self.connection_id),
            m.message == message,
            m.retries == self.config.max_retries,
            m.backoff_ms == self.config.send_error_backoff,
            m.attempt == 0,
            m.errors@ == Seq::<TransientError>::empty(),
            m.phase is Ready,
    {
        RetrySend::new(
            self.to,
            Some(self.connection_id),
            message,
            self.config.max_retries,
            self.config.send_error_backoff,
        )
    }
}

} // verus!
