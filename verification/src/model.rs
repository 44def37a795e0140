//! Plain models of the opaque values that cross the boundary to the swarm
//! driver: peer identities, connection handles, content keys, negotiated
//! protocol versions and encoded protocol messages.

use vstd::prelude::*;

verus! {

/// Opaque, comparable identifier of a remote participant in the swarm. The
/// embedding program maps real transport identities to and from this value.
#[derive(Clone, Copy, PartialEq, Eq, Hash, Debug, Structural)]
pub struct PeerId(pub u64);

/// Opaque handle naming one established connection to a peer; allocated by
/// the swarm driver.
#[derive(Clone, Copy, PartialEq, Eq, Hash, Debug, Structural)]
pub struct ConnectionId(pub u64);

/// Content key whose providers can be announced or queried; stands for a
/// content identifier that the driver resolves.
#[derive(Clone, Copy, PartialEq, Eq, Hash, Debug, Structural)]
pub struct Cid(pub u64);

/// Result of protocol version negotiation with a peer, immutable once
/// obtained from a dial.
#[derive(Clone, Copy, PartialEq, Eq, Hash, Debug, Structural)]
pub enum ProtocolId {
    /// The pre-versioned legacy exchange protocol.
    Legacy,
    /// Exchange protocol version 1.0.0.
    Bitswap100,
    /// Exchange protocol version 1.1.0.
    Bitswap110,
    /// Exchange protocol version 1.2.0, the first with HAVE-style responses.
    Bitswap120,
}

impl ProtocolId {
    /// Whether the negotiated protocol can answer wants with HAVE responses.
    pub open spec fn supports_have_spec(self) -> bool {
        self is Bitswap120
    }

    /// Capability query: does this protocol speak HAVE-style responses?
    pub fn supports_have(self) -> (r: bool)
        ensures
            r == self.supports_have_spec(),
    {
        matches!(self, ProtocolId::Bitswap120)
    }
}

/// An encoded exchange-protocol message, opaque to this layer: only its
/// encoded size is ever inspected. The bytes are handed unchanged to the
/// swarm driver.
pub struct BitswapMessage {
    /// The wire encoding of the message.
    pub bytes: Vec<u8>,
}

impl View for BitswapMessage {
    type V = Seq<u8>;

    open spec fn view(&self) -> Seq<u8> {
        self.bytes@
    }
}

impl BitswapMessage {
    /// Wraps already-encoded message bytes.
    pub fn new(bytes: Vec<u8>) -> (m: Self)
        ensures
            m@ == bytes@,
    {
        BitswapMessage { bytes }
    }

    /// The size of the wire encoding in bytes.
    pub fn encoded_len(&self) -> (n: usize)
        ensures
            n == self@.len(),
    {
        self.bytes.len()
    }

    /// An owned copy with the same wire encoding.
    pub fn duplicate(&self) -> (m: Self)
        ensures
            m@ == self@,
    {
        let mut bytes: Vec<u8> = Vec::new();
        let mut i: usize = 0;
        while i < self.bytes.len()
            invariant
                i <= self.bytes.len(),
                bytes@ == self.bytes@.take(i as int),
            decreases self.bytes.len() - i,
        {
            bytes.push(self.bytes[i]);
            i = i + 1;
            proof {
                assert(bytes@ =~= self.bytes@.take(i as int));
            }
        }
        proof {
            assert(bytes@ =~= self.bytes@);
        }
        BitswapMessage { bytes }
    }
}

} // verus!
