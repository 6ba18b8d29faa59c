//! Identities, states and the invoice.

use vstd::prelude::*;

verus! {

/// What an identity stands for on the host: a person's account or a deployed contract.
#[derive(Clone, Copy, Debug, PartialEq, Eq, Structural, Hash)]
pub enum AddressKind {
    Account,
    Contract,
}

/// The identity of a party. Two identities are the same party exactly when
/// all three fields agree.
#[derive(Clone, Copy, Debug, PartialEq, Eq, Structural, Hash)]
pub struct Address {
    pub kind: AddressKind,
    /// Upper half of the 256-bit account digest.
    pub hi: u128,
    /// Lower half of the 256-bit account digest.
    pub lo: u128,
}

/// Reference to a value-holding account (a purse). The engine only carries
/// it; it never looks inside.
#[derive(Clone, Copy, Debug, PartialEq, Eq, Structural, Hash)]
pub struct CustodyHandle {
    /// Upper half of the purse's 256-bit address.
    pub hi: u128,
    /// Lower half of the purse's 256-bit address.
    pub lo: u128,
    /// Access-rights bits that the host attached to the reference.
    pub rights: u8,
}

/// Who is calling and when: handed to every operation by the host.
#[derive(Clone, Copy, Debug, PartialEq, Eq, Structural)]
pub struct Context {
    pub caller: Address,
    pub now: u64,
}

/// The phase an escrow is in.
#[derive(Clone, Copy, Debug, PartialEq, Eq, Structural, Hash)]
pub enum EscrowState {
    /// Created, not yet accepted by the payer.
    Draft,
    /// The payer has accepted the terms.
    Accepted,
    /// Funds are held in custody.
    Funded,
    /// Funds have left custody. Terminal.
    Released,
    /// Called off before funding. Terminal.
    Cancelled,
    /// A party contests the funded escrow; only the arbiter can end this.
    Disputed,
}

impl EscrowState {
    /// A terminal state has no outgoing transition.
    pub open spec fn terminal(self) -> bool {
        self == EscrowState::Released || self == EscrowState::Cancelled
    }

    /// Custody may be non-empty only in these states.
    pub open spec fn holds_funds(self) -> bool {
        self == EscrowState::Funded || self == EscrowState::Disputed
    }

    /// The number under which the state is stored.
    pub open spec fn code_of(self) -> u8 {
        match self {
            EscrowState::Draft => 0,
            EscrowState::Accepted => 1,
            EscrowState::Funded => 2,
            EscrowState::Released => 3,
            EscrowState::Cancelled => 4,
            EscrowState::Disputed => 5,
        }
    }

    /// The number under which the state is stored.
    pub fn code(&self) -> (r: u8)
        ensures
            r == self.code_of(),
    {
        match self {
            EscrowState::Draft => 0,
            EscrowState::Accepted => 1,
            EscrowState::Funded => 2,
            EscrowState::Released => 3,
            EscrowState::Cancelled => 4,
            EscrowState::Disputed => 5,
        }
    }

    /// The state stored under `code`, if there is one.
    pub fn from_code(code: u8) -> (r: Option<EscrowState>)
        ensures
            r matches Some(state) ==> state.code_of() == code,
            r is None ==> forall|state: EscrowState| state.code_of() != code,
    {
        match code {
            0 => Some(EscrowState::Draft),
            1 => Some(EscrowState::Accepted),
            2 => Some(EscrowState::Funded),
            3 => Some(EscrowState::Released),
            4 => Some(EscrowState::Cancelled),
            5 => Some(EscrowState::Disputed),
            _ => None,
        }
    }

    pub fn is_terminal(&self) -> (r: bool)
        ensures
            r == self.terminal(),
    {
        match self {
            EscrowState::Released => true,
            EscrowState::Cancelled => true,
            _ => false,
        }
    }
}

impl Default for EscrowState {
    fn default() -> (r: EscrowState)
        ensures
            r == EscrowState::Draft,
    {
        EscrowState::Draft
    }
}

/// The parts a party can play in an escrow. One identity may play several.
#[derive(Clone, Copy, Debug, PartialEq, Eq, Structural, Hash)]
pub enum Role {
    /// The party that is owed payment.
    Issuer,
    /// The party that funds the escrow.
    Payer,
    /// The optional third party that settles disputes.
    Arbiter,
}

/// The agreement an escrow is about. Fixed when the escrow is created.
#[derive(Debug, PartialEq, Eq)]
pub struct Invoice {
    pub id: String,
    pub description: String,
    /// The amount that funding must reach.
    pub amount: u64,
    pub issuer: Address,
    pub payer: Address,
    pub arbiter: Option<Address>,
    pub created_at: u64,
    pub due_date: Option<u64>,
}

/// An invoice as a mathematical value.
pub struct InvoiceView {
    pub id: Seq<char>,
    pub description: Seq<char>,
    pub amount: nat,
    pub issuer: Address,
    pub payer: Address,
    pub arbiter: Option<Address>,
    pub created_at: u64,
    pub due_date: Option<u64>,
}

impl InvoiceView {
    /// Whether `who` plays `role` under this invoice. Nobody plays the
    /// arbiter where none was named.
    pub open spec fn holds_role(self, who: Address, role: Role) -> bool {
        match role {
            Role::Issuer => who == self.issuer,
            Role::Payer => who == self.payer,
            Role::Arbiter => self.arbiter == Some(who),
        }
    }
}

impl View for Invoice {
    type V = InvoiceView;

    open spec fn view(&self) -> InvoiceView {
        InvoiceView {
            id: self.id@,
            description: self.description@,
            amount: self.amount as nat,
            issuer: self.issuer,
            payer: self.payer,
            arbiter: self.arbiter,
            created_at: self.created_at,
            due_date: self.due_date,
        }
    }
}

impl Clone for Invoice {
    fn clone(&self) -> (r: Invoice)
        ensures
            r == *self,
    {
        Invoice {
            id: self.id.clone(),
            description: self.description.clone(),
            amount: self.amount,
            issuer: self.issuer,
            payer: self.payer,
            arbiter: self.arbiter,
            created_at: self.created_at,
            due_date: self.due_date,
        }
    }
}

impl Invoice {
    /// Tells whether `who` plays `role` under this invoice.
    pub fn holds_role(&self, who: Address, role: Role) -> (r: bool)
        ensures
            r == self@.holds_role(who, role),
    {
        match role {
            Role::Issuer => who == self.issuer,
            Role::Payer => who == self.payer,
            Role::Arbiter => match self.arbiter {
                Some(arbiter) => who == arbiter,
                None => false,
            },
        }
    }
}

/// What the issuer supplies to create an escrow.
#[derive(Debug, PartialEq, Eq)]
pub struct EscrowConfig {
    pub id: String,
    pub description: String,
    pub amount: u64,
    pub payer: Address,
    pub arbiter: Option<Address>,
    pub due_date: Option<u64>,
}

} // verus!
