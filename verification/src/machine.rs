//! The state graph: which operation is legal from which state, and where it leads.

use vstd::prelude::*;
use crate::types::EscrowState;

verus! {

/// The operations that change an escrow.
#[derive(Clone, Copy, Debug, PartialEq, Eq, Structural, Hash)]
pub enum Operation {
    Accept,
    Fund,
    Release,
    Cancel,
    Dispute,
    ResolveDispute,
}

impl Operation {
    /// The state in which the operation leaves the escrow when it succeeds.
    pub open spec fn destination(self) -> EscrowState {
        match self {
            Operation::Accept => EscrowState::Accepted,
            Operation::Fund => EscrowState::Funded,
            Operation::Release => EscrowState::Released,
            Operation::Cancel => EscrowState::Cancelled,
            Operation::Dispute => EscrowState::Disputed,
            Operation::ResolveDispute => EscrowState::Released,
        }
    }

    /// Whether the operation asks the value-transfer service to move funds.
    pub open spec fn moves_value(self) -> bool {
        self == Operation::Fund || self == Operation::Release || self == Operation::ResolveDispute
    }

    pub fn target(&self) -> (r: EscrowState)
        ensures
            r == self.destination(),
    {
        match self {
            Operation::Accept => EscrowState::Accepted,
            Operation::Fund => EscrowState::Funded,
            Operation::Release => EscrowState::Released,
            Operation::Cancel => EscrowState::Cancelled,
            Operation::Dispute => EscrowState::Disputed,
            Operation::ResolveDispute => EscrowState::Released,
        }
    }
}

/// The edges of the state graph: `op` is legal from `state`.
pub open spec fn legal_from(state: EscrowState, op: Operation) -> bool {
    match op {
        Operation::Accept => state == EscrowState::Draft,
        Operation::Fund => state == EscrowState::Accepted,
        Operation::Release => state == EscrowState::Funded,
        Operation::Dispute => state == EscrowState::Funded,
        Operation::ResolveDispute => state == EscrowState::Disputed,
        Operation::Cancel => state == EscrowState::Draft || state == EscrowState::Accepted,
    }
}

/// Tells whether `op` is legal from `state`.
pub fn permits(state: EscrowState, op: Operation) -> (r: bool)
    ensures
        r == legal_from(state, op),
{
    match op {
        Operation::Accept => state == EscrowState::Draft,
        Operation::Fund => state == EscrowState::Accepted,
        Operation::Release => state == EscrowState::Funded,
        Operation::Dispute => state == EscrowState::Funded,
        Operation::ResolveDispute => state == EscrowState::Disputed,
        Operation::Cancel => state == EscrowState::Draft || state == EscrowState::Accepted,
    }
}

} // verus!
