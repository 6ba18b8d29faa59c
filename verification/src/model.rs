//! The escrow as a mathematical value, and what each call does to it.

use vstd::prelude::*;
use crate::custody::{deposit_of, payout_of, Transfer};
use crate::error::EscrowError;
use crate::guard::authorized;
use crate::machine::{legal_from, Operation};
use crate::types::{Address, CustodyHandle, EscrowConfig, EscrowState, InvoiceView};

verus! {

/// An escrow as a mathematical value.
pub struct EscrowView {
    pub state: EscrowState,
    pub invoice: InvoiceView,
    /// The amount held in custody.
    pub balance: nat,
    /// The purse that holds it.
    pub purse: CustodyHandle,
}

impl EscrowView {
    /// What holds of every escrow that the operations can reach: custody is
    /// empty outside the two funded states, and inside them it covers the invoice.
    pub open spec fn well_formed(self) -> bool {
        &&& !self.state.holds_funds() ==> self.balance == 0
        &&& self.state.holds_funds() ==> self.balance >= self.invoice.amount
        &&& self.balance <= u64::MAX
    }
}

/// A call as the state machine sees it: the operation and the arguments
/// that bear on the outcome.
#[derive(Clone, Copy, Debug, PartialEq, Eq, Structural)]
pub enum Call {
    Accept,
    Fund { amount: u64, source: CustodyHandle },
    Release,
    Cancel,
    Dispute,
    ResolveDispute { release_to_issuer: bool },
}

impl Call {
    pub open spec fn operation(self) -> Operation {
        match self {
            Call::Accept => Operation::Accept,
            Call::Fund { .. } => Operation::Fund,
            Call::Release => Operation::Release,
            Call::Cancel => Operation::Cancel,
            Call::Dispute => Operation::Dispute,
            Call::ResolveDispute { .. } => Operation::ResolveDispute,
        }
    }

    /// The operation that the call invokes.
    pub fn kind(&self) -> (r: Operation)
        ensures
            r == self.operation(),
    {
        match self {
            Call::Accept => Operation::Accept,
            Call::Fund { .. } => Operation::Fund,
            Call::Release => Operation::Release,
            Call::Cancel => Operation::Cancel,
            Call::Dispute => Operation::Dispute,
            Call::ResolveDispute { .. } => Operation::ResolveDispute,
        }
    }
}

/// The escrow that `config` describes, created by `issuer` at `now` over `purse`.
pub open spec fn created(
    config: EscrowConfig,
    issuer: Address,
    now: u64,
    purse: CustodyHandle,
) -> EscrowView {
    EscrowView {
        state: EscrowState::Draft,
        invoice: InvoiceView {
            id: config.id@,
            description: config.description@,
            amount: config.amount as nat,
            issuer,
            payer: config.payer,
            arbiter: config.arbiter,
            created_at: now,
            due_date: config.due_date,
        },
        balance: 0,
        purse,
    }
}

/// Why `call` by `caller` is refused before any value moves, if it is.
/// The state is looked at first, the caller second, the amount last.
pub open spec fn refusal(e: EscrowView, caller: Address, call: Call) -> Option<EscrowError> {
    if !legal_from(e.state, call.operation()) {
        Some(EscrowError::InvalidState)
    } else if !authorized(call.operation(), e.state, e.invoice, caller) {
        Some(EscrowError::Unauthorized)
    } else if call matches Call::Fund { amount, .. } && amount < e.invoice.amount {
        Some(EscrowError::InsufficientFunds)
    } else {
        None
    }
}

/// The transfer that `call` needs, if it moves value. Funding brings the
/// offered amount into custody; a release pays the whole balance to the
/// issuer; a ruling pays it to the party the arbiter names.
pub open spec fn transfer_of(e: EscrowView, call: Call) -> Option<Transfer> {
    match call {
        Call::Fund { amount, source } => Some(deposit_of(source, e.purse, amount)),
        Call::Release => Some(payout_of(e.purse, e.invoice.issuer, e.balance as u64)),
        Call::ResolveDispute { release_to_issuer } => Some(
            payout_of(
                e.purse,
                if release_to_issuer {
                    e.invoice.issuer
                } else {
                    e.invoice.payer
                },
                e.balance as u64,
            ),
        ),
        _ => None,
    }
}

/// The amount in custody once `call` has succeeded.
pub open spec fn balance_after(e: EscrowView, call: Call) -> nat {
    match call {
        Call::Fund { amount, .. } => amount as nat,
        Call::Release => 0,
        Call::ResolveDispute { .. } => 0,
        _ => e.balance,
    }
}

/// The result of `call` by `caller` on `e`, where `moved` tells whether the
/// transfer that the call needs went through (it is not looked at where the
/// call moves no value, nor where the call is refused before).
pub open spec fn step(e: EscrowView, caller: Address, call: Call, moved: bool) -> Result<
    EscrowView,
    EscrowError,
> {
    match refusal(e, caller, call) {
        Some(err) => Err(err),
        None => if call.operation().moves_value() && !moved {
            Err(EscrowError::TransferFailed)
        } else {
            Ok(
                EscrowView {
                    state: call.operation().destination(),
                    invoice: e.invoice,
                    balance: balance_after(e, call),
                    purse: e.purse,
                },
            )
        },
    }
}

/// The escrow after `call`: the new value where the call succeeds, the old
/// one where it fails.
pub open spec fn after(e: EscrowView, caller: Address, call: Call, moved: bool) -> EscrowView {
    match step(e, caller, call, moved) {
        Ok(next) => next,
        Err(_) => e,
    }
}

} // verus!
