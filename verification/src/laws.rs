//! What holds of the state machine as a whole, proved over [`step`].

use vstd::prelude::*;
use crate::custody::payout_of;
use crate::error::EscrowError;
use crate::machine::legal_from;
use crate::model::{after, created, step, transfer_of, Call, EscrowView};
use crate::types::{Address, CustodyHandle, EscrowConfig, EscrowState};

verus! {

/// One attempted call: who made it, what it was, and whether the transfer
/// it needed (if any) went through.
pub struct Attempt {
    pub caller: Address,
    pub call: Call,
    pub moved: bool,
}

/// The escrow after a history of attempts, made one after the other.
pub open spec fn run(e: EscrowView, history: Seq<Attempt>) -> EscrowView
    decreases history.len(),
{
    if history.len() == 0 {
        e
    } else {
        let last = history.last();
        after(run(e, history.drop_last()), last.caller, last.call, last.moved)
    }
}

/// A state is found again from the number it is stored under: no two
/// states share a number.
pub proof fn state_codes_are_distinct(a: EscrowState, b: EscrowState)
    requires
        a.code_of() == b.code_of(),
    ensures
        a == b,
{
}

/// A call that the state graph does not list from the current state fails
/// with `InvalidState`, whoever makes it and whatever it offers, and leaves
/// the escrow as it was.
pub proof fn illegal_call_is_rejected(e: EscrowView, caller: Address, call: Call, moved: bool)
    requires
        !legal_from(e.state, call.operation()),
    ensures
        step(e, caller, call, moved) == Err::<EscrowView, EscrowError>(EscrowError::InvalidState),
        after(e, caller, call, moved) == e,
{
}

/// A failed call, for whatever reason, leaves the escrow as it was.
pub proof fn failure_changes_nothing(e: EscrowView, caller: Address, call: Call, moved: bool)
    requires
        step(e, caller, call, moved) is Err,
    ensures
        after(e, caller, call, moved) == e,
{
}

/// Funding succeeds exactly when the escrow is `Accepted`, the caller is the
/// payer, the amount reaches the invoice amount and the transfer went
/// through. The balance is then the amount offered, and the state `Funded`.
pub proof fn fund_succeeds_exactly_when(
    e: EscrowView,
    caller: Address,
    amount: u64,
    source: CustodyHandle,
    moved: bool,
)
    ensures
        step(e, caller, Call::Fund { amount, source }, moved) is Ok <==> (e.state
            == EscrowState::Accepted && caller == e.invoice.payer && amount >= e.invoice.amount
            && moved),
        step(e, caller, Call::Fund { amount, source }, moved) matches Ok(next) ==> next.balance
            == amount && next.state == EscrowState::Funded,
{
}

/// A release by the payer from `Funded`, once its transfer went through,
/// empties custody and ends in `Released`; the transfer it asks for pays
/// the balance held before to the issuer.
pub proof fn release_pays_issuer(e: EscrowView, caller: Address)
    requires
        e.state == EscrowState::Funded,
        caller == e.invoice.payer,
    ensures
        step(e, caller, Call::Release, true) matches Ok(next) && next.balance == 0 && next.state
            == EscrowState::Released,
        transfer_of(e, Call::Release) == Some(
            payout_of(e.purse, e.invoice.issuer, e.balance as u64),
        ),
        step(e, caller, Call::Release, false) == Err::<EscrowView, EscrowError>(
            EscrowError::TransferFailed,
        ),
{
}

/// From a terminal state every call fails with `InvalidState`.
pub proof fn terminal_rejects_every_call(e: EscrowView, caller: Address, call: Call, moved: bool)
    requires
        e.state.terminal(),
    ensures
        step(e, caller, call, moved) == Err::<EscrowView, EscrowError>(EscrowError::InvalidState),
        after(e, caller, call, moved) == e,
{
}

/// A terminal state stays for good: after any history of attempts the
/// escrow is what it was, and each attempt of the history failed with
/// `InvalidState`.
pub proof fn terminal_is_forever(e: EscrowView, history: Seq<Attempt>)
    requires
        e.state.terminal(),
    ensures
        run(e, history) == e,
        forall|i: int|
            0 <= i < history.len() ==> step(
                #[trigger] run(e, history.take(i)),
                history[i].caller,
                history[i].call,
                history[i].moved,
            ) == Err::<EscrowView, EscrowError>(EscrowError::InvalidState),
    decreases history.len(),
{
    if history.len() > 0 {
        terminal_is_forever(e, history.drop_last());
        let last = history.last();
        terminal_rejects_every_call(e, last.caller, last.call, last.moved);
        assert forall|i: int| 0 <= i < history.len() implies step(
            #[trigger] run(e, history.take(i)),
            history[i].caller,
            history[i].call,
            history[i].moved,
        ) == Err::<EscrowView, EscrowError>(EscrowError::InvalidState) by {
            terminal_is_forever(e, history.take(i));
            terminal_rejects_every_call(e, history[i].caller, history[i].call, history[i].moved);
        }
    }
}

/// A dispute and its resolution: from `Funded` the issuer or the payer
/// raises the dispute, which ends in `Disputed`; the arbiter's ruling then
/// ends in `Released` with empty custody, and the transfer it asks for pays
/// the balance to the issuer where the ruling names the issuer, else to the
/// payer.
pub proof fn dispute_round_trip(
    e: EscrowView,
    raiser: Address,
    arbiter: Address,
    release_to_issuer: bool,
)
    requires
        e.state == EscrowState::Funded,
        raiser == e.invoice.issuer || raiser == e.invoice.payer,
        e.invoice.arbiter == Some(arbiter),
    ensures
        step(e, raiser, Call::Dispute, true) matches Ok(disputed) && disputed.state
            == EscrowState::Disputed && disputed.balance == e.balance && (step(
            disputed,
            arbiter,
            Call::ResolveDispute { release_to_issuer },
            true,
        ) matches Ok(done) && done.state == EscrowState::Released && done.balance == 0)
            && transfer_of(disputed, Call::ResolveDispute { release_to_issuer }) == Some(
            payout_of(
                e.purse,
                if release_to_issuer {
                    e.invoice.issuer
                } else {
                    e.invoice.payer
                },
                e.balance as u64,
            ),
        ),
{
}

/// Once disputed, the only way on is the arbiter's ruling: a call that
/// succeeds from `Disputed` is a resolution by the arbiter and ends in `Released`.
pub proof fn dispute_ends_only_by_ruling(e: EscrowView, caller: Address, call: Call, moved: bool)
    requires
        e.state == EscrowState::Disputed,
        step(e, caller, call, moved) is Ok,
    ensures
        call is ResolveDispute,
        e.invoice.arbiter == Some(caller),
        after(e, caller, call, moved).state == EscrowState::Released,
{
}

/// Without an arbiter nobody can rule: the resolution fails with
/// `Unauthorized`, as it does for a caller who is not the arbiter.
pub proof fn ruling_needs_the_arbiter(
    e: EscrowView,
    caller: Address,
    release_to_issuer: bool,
    moved: bool,
)
    requires
        e.state == EscrowState::Disputed,
        e.invoice.arbiter != Some(caller),
    ensures
        step(e, caller, Call::ResolveDispute { release_to_issuer }, moved) == Err::<
            EscrowView,
            EscrowError,
        >(EscrowError::Unauthorized),
{
}

/// The state is judged before the caller: accepting an escrow that is not
/// in `Draft` fails with `InvalidState` also for a caller who is not the payer.
pub proof fn state_is_judged_before_caller(e: EscrowView, caller: Address)
    requires
        e.state != EscrowState::Draft,
        caller != e.invoice.payer,
    ensures
        step(e, caller, Call::Accept, true) == Err::<EscrowView, EscrowError>(
            EscrowError::InvalidState,
        ),
{
}

/// No call changes the invoice or the purse.
pub proof fn invoice_and_purse_are_fixed(e: EscrowView, caller: Address, call: Call, moved: bool)
    ensures
        after(e, caller, call, moved).invoice == e.invoice,
        after(e, caller, call, moved).purse == e.purse,
{
}

/// A call keeps an escrow well formed: custody stays empty outside
/// `Funded` and `Disputed`, and covers the invoice inside them.
pub proof fn step_keeps_well_formed(e: EscrowView, caller: Address, call: Call, moved: bool)
    requires
        e.well_formed(),
    ensures
        after(e, caller, call, moved).well_formed(),
{
}

/// Every escrow that a history of attempts reaches from a new one is well formed.
pub proof fn reachable_is_well_formed(
    config: EscrowConfig,
    issuer: Address,
    now: u64,
    purse: CustodyHandle,
    history: Seq<Attempt>,
)
    ensures
        run(created(config, issuer, now, purse), history).well_formed(),
    decreases history.len(),
{
    if history.len() > 0 {
        reachable_is_well_formed(config, issuer, now, purse, history.drop_last());
        let last = history.last();
        step_keeps_well_formed(
            run(created(config, issuer, now, purse), history.drop_last()),
            last.caller,
            last.call,
            last.moved,
        );
    }
}

} // verus!
