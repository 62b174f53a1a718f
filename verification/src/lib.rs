//! Client-side protocol layer that maps a publish/subscribe message stream
//! onto a device-management protocol: direct-method invocations and twin
//! desired/reported property synchronization, surviving reconnects.
//!
//! The library is the pure, verified core: topic grammar, message
//! classification, the per-connection subscription handshake, and the two
//! twin synchronizers, modelled as a step function from state and transport
//! event to new state and outputs. Transport I/O lives outside the library.

use vstd::prelude::*;

pub mod admin;
pub mod chars;
pub mod classify;
pub mod client;
pub mod json;
pub mod laws;
pub mod messages;
pub mod topics;

verus! {

/// Successor of the wrapping 8-bit correlation-id counter.
pub open spec fn next_id(prev: u8) -> u8 {
    if prev == 255 { 0 } else { (prev + 1) as u8 }
}

/// Correlation ids advance by exactly one step, modulo the counter width.
pub proof fn lemma_next_id_wraps(prev: u8)
    ensures
        next_id(prev) as int == (prev as int + 1) % 256,
        next_id(prev) != prev,
{
}

} // verus!
