//! What the engine asks of the value-transfer service, and what it hears back.

use vstd::prelude::*;
use crate::types::{Address, CustodyHandle};

verus! {

/// One end of a transfer.
#[derive(Clone, Copy, Debug, PartialEq, Eq, Structural)]
pub enum Endpoint {
    /// A purse, named by its handle.
    Purse(CustodyHandle),
    /// The main account of a party.
    Account(Address),
}

/// A request to move `amount` from one end to the other.
#[derive(Clone, Copy, Debug, PartialEq, Eq, Structural)]
pub struct Transfer {
    pub from: Endpoint,
    pub to: Endpoint,
    pub amount: u64,
}

/// What the value-transfer service answered to a request.
#[derive(Clone, Copy, Debug, PartialEq, Eq, Structural)]
pub enum TransferOutcome {
    /// The whole amount has moved.
    Completed,
    /// Nothing has moved.
    Failed,
}

impl TransferOutcome {
    pub open spec fn moved(self) -> bool {
        self == TransferOutcome::Completed
    }

    pub fn is_completed(&self) -> (r: bool)
        ensures
            r == self.moved(),
    {
        match self {
            TransferOutcome::Completed => true,
            TransferOutcome::Failed => false,
        }
    }
}

/// The request that brings `amount` from `source` into the purse `custody`.
pub open spec fn deposit_of(
    source: CustodyHandle,
    custody: CustodyHandle,
    amount: u64,
) -> Transfer {
    Transfer { from: Endpoint::Purse(source), to: Endpoint::Purse(custody), amount }
}

/// The request that pays `amount` out of the purse `custody` to `receiver`.
pub open spec fn payout_of(custody: CustodyHandle, receiver: Address, amount: u64) -> Transfer {
    Transfer { from: Endpoint::Purse(custody), to: Endpoint::Account(receiver), amount }
}

impl Transfer {
    /// Builds the request that brings `amount` from `source` into `custody`.
    pub fn deposit(source: CustodyHandle, custody: CustodyHandle, amount: u64) -> (t: Transfer)
        ensures
            t == deposit_of(source, custody, amount),
    {
        Transfer { from: Endpoint::Purse(source), to: Endpoint::Purse(custody), amount }
    }

    /// Builds the request that pays `amount` out of `custody` to `receiver`.
    pub fn payout(custody: CustodyHandle, receiver: Address, amount: u64) -> (t: Transfer)
        ensures
            t == payout_of(custody, receiver, amount),
    {
        Transfer { from: Endpoint::Purse(custody), to: Endpoint::Account(receiver), amount }
    }
}

} // verus!
