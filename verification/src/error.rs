//! The errors a registry operation can surface. Every error aborts the whole
//! request; the host discards any state change before the caller observes it.
//! Faults of the host's own storage stay with the host adapter and never
//! reach this library.

use vstd::prelude::*;

verus! {

#[derive(Clone, Copy, Debug, PartialEq, Eq, Structural)]
pub enum ContractError {
    /// The caller is not the stored owner (any gated mutation).
    Unauthorized,
    /// The referenced entry id does not exist (partial update and single-entry
    /// query only; deleting a missing id is a silent no-op).
    NotFound,
    /// The supplied ownership-transfer target is not a well-formed identity.
    InvalidAddress,
}

} // verus!
