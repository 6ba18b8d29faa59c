//! Escrow engine: a payer's funds are held for an issuer, released along the
//! authorised edges of a small state graph, with disputes settled by an arbiter.
//!
//! The engine never reads its surroundings. The caller's identity and the
//! time arrive in a [`types::Context`], and value is moved by whoever drives
//! the engine: an operation that moves value first names the transfer it
//! needs, and commits only when told that the transfer went through.

pub mod types;
pub mod error;
pub mod machine;
pub mod guard;
pub mod custody;
pub mod events;
pub mod model;
pub mod escrow;
pub mod laws;

pub use error::EscrowError;
pub use types::{
    Address, AddressKind, Context, CustodyHandle, EscrowConfig, EscrowState, Invoice, InvoiceView,
    Role,
};
pub use machine::Operation;
pub use custody::{Endpoint, Transfer, TransferOutcome};
pub use escrow::Escrow;
pub use events::{
    DisputeRaised, DisputeResolved, EscrowAccepted, EscrowCancelled, EscrowCreated, FundsDeposited,
    FundsReleased,
};
pub use model::{Call, EscrowView};
