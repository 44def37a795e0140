//! Bandwidth-aware timeout policy for sending a message.

use vstd::prelude::*;

verus! {

/// Fixed latency allowance granted to every send, in milliseconds.
pub const SEND_LATENCY_MS: u64 = 1_000;

/// Ceiling for the computed send timeout, in milliseconds.
pub const MAX_SEND_TIMEOUT_MS: u64 = 60_000;

/// Floor for the computed send timeout, in milliseconds.
pub const MIN_SEND_TIMEOUT_MS: u64 = 2_000;

/// Assumed worst-case bandwidth, in bytes per second (100 kbit/s).
pub const MIN_SEND_RATE: u64 = 12_500;

/// The timeout allowed for sending a message of `size` bytes: one second of
/// base latency plus one whole second per 12 500 bytes of payload, clamped to
/// the interval [2 s, 60 s]; all values in milliseconds.
pub open spec fn send_timeout_spec(size: nat) -> nat {
    let raw = 1000 + (size / 12500) * 1000;
    if raw > 60000 {
        60000
    } else if raw < 2000 {
        2000
    } else {
        raw
    }
}

/// Calculates an appropriate send timeout in milliseconds from the encoded
/// size of the message. Purely a function of the size: no history and no
/// measurement feedback.
pub fn send_timeout(size: usize) -> (timeout_ms: u64)
    ensures
        timeout_ms == send_timeout_spec(size as nat),
{
    let secs: u64 = (size as u64) / MIN_SEND_RATE;
    if secs >= 59 {
        MAX_SEND_TIMEOUT_MS
    } else {
        let raw: u64 = SEND_LATENCY_MS + secs * 1000;
        if raw < MIN_SEND_TIMEOUT_MS {
            MIN_SEND_TIMEOUT_MS
        } else {
            raw
        }
    }
}

/// Law: the send timeout is monotonically non-decreasing in the message size.
pub proof fn lemma_send_timeout_monotone(a: nat, b: nat)
    requires
        a <= b,
    ensures
        send_timeout_spec(a) <= send_timeout_spec(b),
{
    vstd::arithmetic::div_mod::lemma_div_is_ordered(a as int, b as int, 12500);
}

} // verus!
