//! The escrow itself and its operations.

use vstd::prelude::*;
use crate::custody::{Transfer, TransferOutcome};
use crate::error::EscrowError;
use crate::events::{
    DisputeRaised, DisputeResolved, EscrowAccepted, EscrowCancelled, EscrowCreated, FundsDeposited,
    FundsReleased,
};
use crate::guard::authorize;
use crate::machine::{permits, Operation};
use crate::model::{after, created, refusal, step, transfer_of, Call, EscrowView};
use crate::types::{Context, CustodyHandle, EscrowConfig, EscrowState, Invoice};

verus! {

/// One agreement between an issuer and a payer, with its state, its invoice
/// and the purse that holds its funds.
///
/// An operation that moves value is made in two steps. [`Escrow::prepare`]
/// names the transfer the call needs, or the reason why the call is refused.
/// The host performs that transfer and hands its outcome to the operation,
/// which commits state and balance together, or nothing at all.
///
/// Every escrow is well formed: custody is empty outside `Funded` and
/// `Disputed`, and covers the invoice inside them.
#[derive(Debug)]
pub struct Escrow {
    held: Holding,
    invoice: Invoice,
    purse: CustodyHandle,
}

/// The state and the balance, which change together or not at all.
#[derive(Clone, Copy, Debug)]
struct Holding {
    state: EscrowState,
    balance: u64,
}

impl View for Escrow {
    type V = EscrowView;

    closed spec fn view(&self) -> EscrowView {
        EscrowView {
            state: self.held.state,
            invoice: self.invoice@,
            balance: self.held.balance as nat,
            purse: self.purse,
        }
    }
}

impl Escrow {
    #[verifier::type_invariant]
    spec fn sound(self) -> bool {
        self@.well_formed()
    }

    /// Creates an escrow in `Draft` with empty custody over `purse`. The
    /// caller becomes the issuer, and the time of the call the creation time.
    pub fn init(config: EscrowConfig, ctx: &Context, purse: CustodyHandle) -> (r: (
        Escrow,
        EscrowCreated,
    ))
        ensures
            r.0@ == created(config, ctx.caller, ctx.now, purse),
            r.0@.well_formed(),
            r.1.escrow_id@ == config.id@,
            r.1.issuer == ctx.caller,
            r.1.payer == config.payer,
            r.1.amount == config.amount,
    {
        let event = EscrowCreated {
            escrow_id: config.id.clone(),
            issuer: ctx.caller,
            payer: config.payer,
            amount: config.amount,
        };
        let invoice = Invoice {
            id: config.id,
            description: config.description,
            amount: config.amount,
            issuer: ctx.caller,
            payer: config.payer,
            arbiter: config.arbiter,
            created_at: ctx.now,
            due_date: config.due_date,
        };
        (Escrow { held: Holding { state: EscrowState::Draft, balance: 0 }, invoice, purse }, event)
    }

    /// Puts an escrow together again from the values that were stored for
    /// it. The values are taken only where they make a well-formed escrow:
    /// empty custody outside `Funded` and `Disputed`, and inside them a
    /// balance that covers the invoice.
    pub fn restore(state: EscrowState, invoice: Invoice, balance: u64, purse: CustodyHandle) -> (r:
        Option<Escrow>)
        ensures
            r is Some <==> (EscrowView {
                state,
                invoice: invoice@,
                balance: balance as nat,
                purse,
            }).well_formed(),
            r matches Some(e) ==> e@ == (EscrowView {
                state,
                invoice: invoice@,
                balance: balance as nat,
                purse,
            }),
    {
        let funded = match state {
            EscrowState::Funded => true,
            EscrowState::Disputed => true,
            _ => false,
        };
        if funded && balance < invoice.amount {
            return None;
        }
        if !funded && balance != 0 {
            return None;
        }
        Some(Escrow { held: Holding { state, balance }, invoice, purse })
    }

    /// Looks at `call` without changing anything: the state first, the
    /// caller second, the amount last.
    fn check(&self, ctx: &Context, call: &Call) -> (r: Result<(), EscrowError>)
        ensures
            match refusal(self@, ctx.caller, *call) {
                Some(e) => r == Err::<(), EscrowError>(e),
                None => r is Ok,
            },
    {
        let op = call.kind();
        if !permits(self.held.state, op) {
            return Err(EscrowError::InvalidState);
        }
        if !authorize(op, self.held.state, &self.invoice, ctx.caller) {
            return Err(EscrowError::Unauthorized);
        }
        match call {
            Call::Fund { amount, .. } => {
                if *amount < self.invoice.amount {
                    return Err(EscrowError::InsufficientFunds);
                }
            },
            _ => {},
        }
        Ok(())
    }

    /// Says what `call` by `ctx.caller` needs before it can commit: the
    /// error where the call is refused, else the transfer that the host has
    /// to perform first, or `None` where the call moves no value.
    pub fn prepare(&self, ctx: &Context, call: &Call) -> (r: Result<Option<Transfer>, EscrowError>)
        ensures
            match refusal(self@, ctx.caller, *call) {
                Some(e) => r == Err::<Option<Transfer>, EscrowError>(e),
                None => r == Ok::<Option<Transfer>, EscrowError>(transfer_of(self@, *call)),
            },
    {
        match self.check(ctx, call) {
            Err(e) => Err(e),
            Ok(()) => match call {
                Call::Fund { amount, source } => Ok(
                    Some(Transfer::deposit(*source, self.purse, *amount)),
                ),
                Call::Release => Ok(
                    Some(Transfer::payout(self.purse, self.invoice.issuer, self.held.balance)),
                ),
                Call::ResolveDispute { release_to_issuer } => {
                    let receiver = if *release_to_issuer {
                        self.invoice.issuer
                    } else {
                        self.invoice.payer
                    };
                    Ok(Some(Transfer::payout(self.purse, receiver, self.held.balance)))
                },
                _ => Ok(None),
            },
        }
    }

    /// The payer accepts the terms: `Draft` becomes `Accepted`.
    pub fn accept(&mut self, ctx: &Context) -> (r: Result<EscrowAccepted, EscrowError>)
        ensures
            final(self)@ == after(old(self)@, ctx.caller, Call::Accept, true),
            final(self)@.well_formed(),
            match step(old(self)@, ctx.caller, Call::Accept, true) {
                Ok(_) => r matches Ok(ev) && ev.escrow_id@ == old(self)@.invoice.id && ev.payer
                    == ctx.caller,
                Err(e) => r matches Err(got) && got == e,
            },
            r is Ok <==> old(self)@.state == EscrowState::Draft && ctx.caller == old(
                self,
            )@.invoice.payer,
            r is Ok ==> final(self)@.state == EscrowState::Accepted,
    {
        proof {
            use_type_invariant(&*self);
        }
        match self.check(ctx, &Call::Accept) {
            Err(e) => Err(e),
            Ok(()) => {
                self.held = Holding {
                    state: Operation::Accept.target(),
                    balance: self.held.balance,
                };
                Ok(EscrowAccepted { escrow_id: self.invoice.id.clone(), payer: ctx.caller })
            },
        }
    }

    /// The payer funds the escrow with `amount` taken from `source`:
    /// `Accepted` becomes `Funded`, and the balance becomes `amount`, also
    /// where that is more than the invoice asks for.
    ///
    /// `outcome` is what the transfer service answered to the request that
    /// [`Escrow::prepare`] gave for this call; it is not looked at where the
    /// call is refused for its state, its caller or its amount.
    pub fn fund(
        &mut self,
        ctx: &Context,
        amount: u64,
        source: CustodyHandle,
        outcome: TransferOutcome,
    ) -> (r: Result<FundsDeposited, EscrowError>)
        ensures
            final(self)@ == after(
                old(self)@,
                ctx.caller,
                Call::Fund { amount, source },
                outcome.moved(),
            ),
            final(self)@.well_formed(),
            match step(old(self)@, ctx.caller, Call::Fund { amount, source }, outcome.moved()) {
                Ok(_) => r matches Ok(ev) && ev.escrow_id@ == old(self)@.invoice.id && ev.payer
                    == ctx.caller && ev.amount == amount,
                Err(e) => r matches Err(got) && got == e,
            },
            r is Ok <==> old(self)@.state == EscrowState::Accepted && ctx.caller == old(
                self,
            )@.invoice.payer && amount >= old(self)@.invoice.amount && outcome.moved(),
            r is Ok ==> final(self)@.balance == amount && final(self)@.state
                == EscrowState::Funded,
    {
        proof {
            use_type_invariant(&*self);
        }
        match self.check(ctx, &Call::Fund { amount, source }) {
            Err(e) => Err(e),
            Ok(()) => {
                if !outcome.is_completed() {
                    return Err(EscrowError::TransferFailed);
                }
                self.held = Holding { state: Operation::Fund.target(), balance: amount };
                Ok(
                    FundsDeposited {
                        escrow_id: self.invoice.id.clone(),
                        payer: ctx.caller,
                        amount,
                    },
                )
            },
        }
    }

    /// The payer approves: the whole balance goes to the issuer, custody is
    /// empty and `Funded` becomes `Released`.
    ///
    /// `outcome` is what the transfer service answered to the request that
    /// [`Escrow::prepare`] gave for this call.
    pub fn release(&mut self, ctx: &Context, outcome: TransferOutcome) -> (r: Result<
        FundsReleased,
        EscrowError,
    >)
        ensures
            final(self)@ == after(old(self)@, ctx.caller, Call::Release, outcome.moved()),
            final(self)@.well_formed(),
            match step(old(self)@, ctx.caller, Call::Release, outcome.moved()) {
                Ok(_) => r matches Ok(ev) && ev.escrow_id@ == old(self)@.invoice.id && ev.receiver
                    == old(self)@.invoice.issuer && ev.amount == old(self)@.balance,
                Err(e) => r matches Err(got) && got == e,
            },
            r is Ok <==> old(self)@.state == EscrowState::Funded && ctx.caller == old(
                self,
            )@.invoice.payer && outcome.moved(),
            r is Ok ==> final(self)@.balance == 0 && final(self)@.state == EscrowState::Released,
    {
        proof {
            use_type_invariant(&*self);
        }
        match self.check(ctx, &Call::Release) {
            Err(e) => Err(e),
            Ok(()) => {
                if !outcome.is_completed() {
                    return Err(EscrowError::TransferFailed);
                }
                let amount: u64 = self.held.balance;
                self.held = Holding { state: Operation::Release.target(), balance: 0 };
                Ok(
                    FundsReleased {
                        escrow_id: self.invoice.id.clone(),
                        receiver: self.invoice.issuer,
                        amount,
                    },
                )
            },
        }
    }

    /// Calls the escrow off before funding: the issuer from `Draft`, the
    /// issuer or the payer from `Accepted`.
    pub fn cancel(&mut self, ctx: &Context) -> (r: Result<EscrowCancelled, EscrowError>)
        ensures
            final(self)@ == after(old(self)@, ctx.caller, Call::Cancel, true),
            final(self)@.well_formed(),
            match step(old(self)@, ctx.caller, Call::Cancel, true) {
                Ok(_) => r matches Ok(ev) && ev.escrow_id@ == old(self)@.invoice.id
                    && ev.cancelled_by == ctx.caller,
                Err(e) => r matches Err(got) && got == e,
            },
            r is Ok <==> (old(self)@.state == EscrowState::Draft && ctx.caller == old(
                self,
            )@.invoice.issuer) || (old(self)@.state == EscrowState::Accepted && (ctx.caller
                == old(self)@.invoice.issuer || ctx.caller == old(self)@.invoice.payer)),
            r is Ok ==> final(self)@.state == EscrowState::Cancelled,
    {
        proof {
            use_type_invariant(&*self);
        }
        match self.check(ctx, &Call::Cancel) {
            Err(e) => Err(e),
            Ok(()) => {
                self.held = Holding {
                    state: Operation::Cancel.target(),
                    balance: self.held.balance,
                };
                Ok(
                    EscrowCancelled {
                        escrow_id: self.invoice.id.clone(),
                        cancelled_by: ctx.caller,
                    },
                )
            },
        }
    }

    /// The issuer or the payer contests a funded escrow: `Funded` becomes
    /// `Disputed`. The reason is passed on in the event and not looked at.
    pub fn dispute(&mut self, ctx: &Context, reason: String) -> (r: Result<
        DisputeRaised,
        EscrowError,
    >)
        ensures
            final(self)@ == after(old(self)@, ctx.caller, Call::Dispute, true),
            final(self)@.well_formed(),
            match step(old(self)@, ctx.caller, Call::Dispute, true) {
                Ok(_) => r matches Ok(ev) && ev.escrow_id@ == old(self)@.invoice.id && ev.raised_by
                    == ctx.caller && ev.reason@ == reason@,
                Err(e) => r matches Err(got) && got == e,
            },
            r is Ok <==> old(self)@.state == EscrowState::Funded && (ctx.caller == old(
                self,
            )@.invoice.issuer || ctx.caller == old(self)@.invoice.payer),
            r is Ok ==> final(self)@.state == EscrowState::Disputed && final(self)@.balance
                == old(self)@.balance,
    {
        proof {
            use_type_invariant(&*self);
        }
        match self.check(ctx, &Call::Dispute) {
            Err(e) => Err(e),
            Ok(()) => {
                self.held = Holding {
                    state: Operation::Dispute.target(),
                    balance: self.held.balance,
                };
                Ok(
                    DisputeRaised {
                        escrow_id: self.invoice.id.clone(),
                        raised_by: ctx.caller,
                        reason,
                    },
                )
            },
        }
    }

    /// The arbiter rules on a dispute: the whole balance goes to the issuer
    /// where `release_to_issuer` is set, else back to the payer; custody is
    /// empty and `Disputed` becomes `Released`. The ruling is reported first,
    /// the payment second.
    ///
    /// `outcome` is what the transfer service answered to the request that
    /// [`Escrow::prepare`] gave for this call.
    pub fn resolve_dispute(
        &mut self,
        ctx: &Context,
        release_to_issuer: bool,
        outcome: TransferOutcome,
    ) -> (r: Result<(DisputeResolved, FundsReleased), EscrowError>)
        ensures
            final(self)@ == after(
                old(self)@,
                ctx.caller,
                Call::ResolveDispute { release_to_issuer },
                outcome.moved(),
            ),
            final(self)@.well_formed(),
            match step(
                old(self)@,
                ctx.caller,
                Call::ResolveDispute { release_to_issuer },
                outcome.moved(),
            ) {
                Ok(_) => r matches Ok(evs) && evs.0.escrow_id@ == old(self)@.invoice.id
                    && evs.0.resolved_by == ctx.caller && evs.0.release_to_receiver
                    == release_to_issuer && evs.1.escrow_id@ == old(self)@.invoice.id
                    && evs.1.receiver == (if release_to_issuer {
                    old(self)@.invoice.issuer
                } else {
                    old(self)@.invoice.payer
                }) && evs.1.amount == old(self)@.balance,
                Err(e) => r matches Err(got) && got == e,
            },
            r is Ok <==> old(self)@.state == EscrowState::Disputed && old(self)@.invoice.arbiter
                == Some(ctx.caller) && outcome.moved(),
            r is Ok ==> final(self)@.balance == 0 && final(self)@.state == EscrowState::Released,
    {
        proof {
            use_type_invariant(&*self);
        }
        match self.check(ctx, &Call::ResolveDispute { release_to_issuer }) {
            Err(e) => Err(e),
            Ok(()) => {
                if !outcome.is_completed() {
                    return Err(EscrowError::TransferFailed);
                }
                let amount: u64 = self.held.balance;
                self.held = Holding { state: Operation::ResolveDispute.target(), balance: 0 };
                let receiver = if release_to_issuer {
                    self.invoice.issuer
                } else {
                    self.invoice.payer
                };
                let ruling = DisputeResolved {
                    escrow_id: self.invoice.id.clone(),
                    resolved_by: ctx.caller,
                    release_to_receiver: release_to_issuer,
                };
                let payment = FundsReleased {
                    escrow_id: self.invoice.id.clone(),
                    receiver,
                    amount,
                };
                Ok((ruling, payment))
            },
        }
    }

    /// The current state.
    pub fn get_state(&self) -> (r: EscrowState)
        ensures
            r == self@.state,
            self@.well_formed(),
    {
        proof {
            use_type_invariant(self);
        }
        self.held.state
    }

    /// A copy of the invoice. An escrow always has one.
    pub fn get_invoice(&self) -> (r: Option<Invoice>)
        ensures
            r matches Some(invoice) && invoice@ == self@.invoice,
    {
        Some(self.invoice.clone())
    }

    /// The amount held in custody.
    pub fn get_balance(&self) -> (r: u64)
        ensures
            r == self@.balance,
            self@.well_formed(),
    {
        proof {
            use_type_invariant(self);
        }
        self.held.balance
    }

    /// The purse that holds the funds.
    pub fn get_purse(&self) -> (r: CustodyHandle)
        ensures
            r == self@.purse,
    {
        self.purse
    }
}

} // verus!
