//! Transport-adapter layer of a content-addressed block-exchange protocol.
//!
//! Many concurrent callers issue protocol operations (send a message, dial a
//! peer, ping, announce or query providers) while the actual network I/O is
//! driven by a single, externally owned, poll-based swarm loop. The heart of
//! the crate is the request/response bridge: a bounded outbound-event queue,
//! ticket-based reply correlation, a bandwidth-aware timeout policy, and a
//! bounded-retry send engine with backoff and early termination on fatal
//! protocol errors.
//!
//! Everything that decides or computes lives here, with contracts; the
//! asynchronous plumbing (awaiting replies, timers, the poll loop itself)
//! belongs to the embedding program, which drives the engines in this crate
//! step by step.

pub mod events;
pub mod lock;
pub mod model;
pub mod network;
pub mod process;
pub mod queue;
pub mod retry;
pub mod sender;
pub mod timeout;
