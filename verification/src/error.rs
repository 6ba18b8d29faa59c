//! Why an operation was refused.

use vstd::prelude::*;

verus! {

/// The ways an operation can fail. A failed operation changes nothing; the
/// escrow can be used again afterwards.
#[derive(Clone, Copy, Debug, PartialEq, Eq, Structural, Hash)]
pub enum EscrowError {
    /// The caller may not perform this operation.
    Unauthorized,
    /// The operation is not legal in the current state.
    InvalidState,
    /// The amount offered is below what the invoice requires.
    InsufficientFunds,
    /// The value transfer did not go through.
    TransferFailed,
    /// A record that the operation refers to is absent.
    NotFound,
}

} // verus!
