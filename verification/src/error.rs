//! Typed failures of the component.

use vstd::prelude::*;

verus! {

/// Every failure an entry point can report.
///
/// All failures are returned to the host as values; none is retried
/// internally and none aborts the process.
#[derive(Debug)]
pub enum ContractError {
    /// The persisted record is absent.
    NotFound,
    /// The inbound message carries a tag no handler accepts.
    UnroutableMessage,
    /// The host reported that the child creation failed; carries the
    /// host's message verbatim.
    ChildCreationFailed(String),
    /// A success callback held no creation-confirmation event.
    MissingCreationEvent,
    /// The creation-confirmation event held no address attribute.
    MissingAddressAttribute,
}

} // verus!
