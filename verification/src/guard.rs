//! Who may invoke which operation.

use vstd::prelude::*;
use crate::machine::Operation;
use crate::types::{Address, EscrowState, Invoice, InvoiceView, Role};

verus! {

/// Whether a party in `role` may invoke `op` while the escrow is in `state`.
///
/// Cancelling is the one operation whose circle of callers depends on the
/// state: the issuer may always call it off, the payer only after accepting.
pub open spec fn role_admitted(op: Operation, state: EscrowState, role: Role) -> bool {
    match op {
        Operation::Accept => role == Role::Payer,
        Operation::Fund => role == Role::Payer,
        Operation::Release => role == Role::Payer,
        Operation::Dispute => role == Role::Issuer || role == Role::Payer,
        Operation::ResolveDispute => role == Role::Arbiter,
        Operation::Cancel => role == Role::Issuer || (role == Role::Payer && state
            == EscrowState::Accepted),
    }
}

/// Whether `caller` may invoke `op`: the caller plays a role that `op` admits.
pub open spec fn authorized(
    op: Operation,
    state: EscrowState,
    invoice: InvoiceView,
    caller: Address,
) -> bool {
    ||| (role_admitted(op, state, Role::Issuer) && invoice.holds_role(caller, Role::Issuer))
    ||| (role_admitted(op, state, Role::Payer) && invoice.holds_role(caller, Role::Payer))
    ||| (role_admitted(op, state, Role::Arbiter) && invoice.holds_role(caller, Role::Arbiter))
}

/// Tells whether a party in `role` may invoke `op` in `state`.
pub fn admits(op: Operation, state: EscrowState, role: Role) -> (r: bool)
    ensures
        r == role_admitted(op, state, role),
{
    match op {
        Operation::Accept => role == Role::Payer,
        Operation::Fund => role == Role::Payer,
        Operation::Release => role == Role::Payer,
        Operation::Dispute => role == Role::Issuer || role == Role::Payer,
        Operation::ResolveDispute => role == Role::Arbiter,
        Operation::Cancel => role == Role::Issuer || (role == Role::Payer && state
            == EscrowState::Accepted),
    }
}

/// Tells whether `caller` may invoke `op` on an escrow in `state` over `invoice`.
pub fn authorize(op: Operation, state: EscrowState, invoice: &Invoice, caller: Address) -> (r: bool)
    ensures
        r == authorized(op, state, invoice@, caller),
{
    (admits(op, state, Role::Issuer) && invoice.holds_role(caller, Role::Issuer))
        || (admits(op, state, Role::Payer) && invoice.holds_role(caller, Role::Payer))
        || (admits(op, state, Role::Arbiter) && invoice.holds_role(caller, Role::Arbiter))
}

} // verus!
