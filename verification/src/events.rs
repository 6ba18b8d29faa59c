//! The records an operation hands to the event sink.

use vstd::prelude::*;
use crate::types::Address;

verus! {

/// A new escrow exists.
#[derive(Debug, PartialEq, Eq)]
pub struct EscrowCreated {
    pub escrow_id: String,
    pub issuer: Address,
    pub payer: Address,
    pub amount: u64,
}

/// The payer accepted the terms.
#[derive(Debug, PartialEq, Eq)]
pub struct EscrowAccepted {
    pub escrow_id: String,
    pub payer: Address,
}

/// Funds entered custody.
#[derive(Debug, PartialEq, Eq)]
pub struct FundsDeposited {
    pub escrow_id: String,
    pub payer: Address,
    pub amount: u64,
}

/// Funds left custody for `receiver`.
#[derive(Debug, PartialEq, Eq)]
pub struct FundsReleased {
    pub escrow_id: String,
    pub receiver: Address,
    pub amount: u64,
}

/// The escrow was called off.
#[derive(Debug, PartialEq, Eq)]
pub struct EscrowCancelled {
    pub escrow_id: String,
    pub cancelled_by: Address,
}

/// A party contests the funded escrow.
#[derive(Debug, PartialEq, Eq)]
pub struct DisputeRaised {
    pub escrow_id: String,
    pub raised_by: Address,
    pub reason: String,
}

/// The arbiter ruled. `release_to_receiver` is true where the ruling went to the issuer.
#[derive(Debug, PartialEq, Eq)]
pub struct DisputeResolved {
    pub escrow_id: String,
    pub resolved_by: Address,
    pub release_to_receiver: bool,
}

} // verus!
