//! The ways in which a command fails.

use vstd::prelude::*;

verus! {

/// Why a command was refused. A refused command changes nothing.
#[derive(Debug, Clone, Copy, PartialEq, Eq, Structural)]
pub enum ContractError {
    /// The store was read before any record was written to it.
    NotFound,
    /// The stored bytes do not decode to a record.
    SerializationFailure,
    /// The caller asked for a transfer and is not the owner.
    Unauthorized {},
}

} // verus!
