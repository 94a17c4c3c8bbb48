//! A small actor-style counter component.
//!
//! The component persists one record (a counter and its owner), answers
//! host-invoked entry points for initialization, mutation and queries, and
//! can ask the host to create a child instance asynchronously. The host
//! later delivers a single callback with the outcome of that creation; the
//! reply correlator walks the callback's event log to recover the address
//! assigned to the child.

use vstd::prelude::*;

pub mod codec;
pub mod contract;
pub mod error;
pub mod laws;
pub mod msg;
pub mod state;

verus! {

/// Correlation id attached to the single child-creation request this
/// component can have in flight.
pub const INSTANTIATE_REPLY_ID: u64 = 1;

/// Code template the host uses to instantiate a child.
pub const SLAVE_CODE_ID: u64 = 9552;

} // verus!
