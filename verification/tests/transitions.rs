use termina_escrow::guard::{admits, authorize};
use termina_escrow::machine::permits;
use termina_escrow::{
    Address, AddressKind, Context, CustodyHandle, Escrow, EscrowConfig, EscrowError, EscrowState,
    Invoice, Operation, Role, Transfer, TransferOutcome,
};

fn account(n: u128) -> Address {
    Address { kind: AddressKind::Account, hi: 0, lo: n }
}

fn purse(n: u128) -> CustodyHandle {
    CustodyHandle { hi: 0, lo: n, rights: 7 }
}

fn at(caller: Address) -> Context {
    Context { caller, now: 7 }
}

fn invoice(amount: u64) -> Invoice {
    Invoice {
        id: "INV-3".to_string(),
        description: "Parts".to_string(),
        amount,
        issuer: account(0),
        payer: account(1),
        arbiter: Some(account(2)),
        created_at: 1,
        due_date: None,
    }
}

fn in_state(state: EscrowState) -> Escrow {
    let balance = match state {
        EscrowState::Funded | EscrowState::Disputed => 100,
        _ => 0,
    };
    Escrow::restore(state, invoice(100), balance, purse(9)).unwrap()
}

const STATES: [EscrowState; 6] = [
    EscrowState::Draft,
    EscrowState::Accepted,
    EscrowState::Funded,
    EscrowState::Released,
    EscrowState::Cancelled,
    EscrowState::Disputed,
];

const OPERATIONS: [Operation; 6] = [
    Operation::Accept,
    Operation::Fund,
    Operation::Release,
    Operation::Cancel,
    Operation::Dispute,
    Operation::ResolveDispute,
];

fn attempt(escrow: &mut Escrow, op: Operation, who: Address) -> Result<(), EscrowError> {
    let ctx = at(who);
    match op {
        Operation::Accept => escrow.accept(&ctx).map(|_| ()),
        Operation::Fund => {
            escrow.fund(&ctx, 100, purse(1), TransferOutcome::Completed).map(|_| ())
        }
        Operation::Release => escrow.release(&ctx, TransferOutcome::Completed).map(|_| ()),
        Operation::Cancel => escrow.cancel(&ctx).map(|_| ()),
        Operation::Dispute => escrow.dispute(&ctx, "why".to_string()).map(|_| ()),
        Operation::ResolveDispute => {
            escrow.resolve_dispute(&ctx, true, TransferOutcome::Completed).map(|_| ())
        }
    }
}

#[test]
fn the_state_graph_has_seven_edges() {
    let mut edges = Vec::new();
    for state in STATES {
        for op in OPERATIONS {
            if permits(state, op) {
                edges.push((state, op, op.target()));
            }
        }
    }
    assert_eq!(
        edges,
        vec![
            (EscrowState::Draft, Operation::Accept, EscrowState::Accepted),
            (EscrowState::Draft, Operation::Cancel, EscrowState::Cancelled),
            (EscrowState::Accepted, Operation::Fund, EscrowState::Funded),
            (EscrowState::Accepted, Operation::Cancel, EscrowState::Cancelled),
            (EscrowState::Funded, Operation::Release, EscrowState::Released),
            (EscrowState::Funded, Operation::Dispute, EscrowState::Disputed),
            (EscrowState::Disputed, Operation::ResolveDispute, EscrowState::Released),
        ]
    );
}

#[test]
fn an_unlisted_operation_is_a_state_error_for_every_caller() {
    for state in STATES {
        for op in OPERATIONS {
            if permits(state, op) {
                continue;
            }
            for who in [account(0), account(1), account(2), account(3)] {
                let mut escrow = in_state(state);
                let balance = escrow.get_balance();
                assert_eq!(attempt(&mut escrow, op, who), Err(EscrowError::InvalidState));
                assert_eq!(escrow.get_state(), state);
                assert_eq!(escrow.get_balance(), balance);
            }
        }
    }
}

#[test]
fn a_listed_operation_by_the_right_caller_moves_to_its_target() {
    for state in STATES {
        for op in OPERATIONS {
            if !permits(state, op) {
                continue;
            }
            let who = match op {
                Operation::ResolveDispute => account(2),
                Operation::Cancel => account(0),
                _ => account(1),
            };
            let mut escrow = in_state(state);
            assert_eq!(attempt(&mut escrow, op, who), Ok(()));
            assert_eq!(escrow.get_state(), op.target());
        }
    }
}

#[test]
fn terminal_states_refuse_everything_again_and_again() {
    for state in [EscrowState::Released, EscrowState::Cancelled] {
        assert!(state.is_terminal());
        let mut escrow = in_state(state);
        for _round in 0..3 {
            for op in OPERATIONS {
                for who in [account(0), account(1), account(2)] {
                    assert_eq!(attempt(&mut escrow, op, who), Err(EscrowError::InvalidState));
                    assert_eq!(escrow.get_state(), state);
                    assert_eq!(escrow.get_balance(), 0);
                }
            }
        }
    }
    assert!(!EscrowState::Draft.is_terminal());
    assert!(!EscrowState::Accepted.is_terminal());
    assert!(!EscrowState::Funded.is_terminal());
    assert!(!EscrowState::Disputed.is_terminal());
}

#[test]
fn accept_out_of_turn_by_a_stranger_is_a_state_error() {
    for state in [
        EscrowState::Accepted,
        EscrowState::Funded,
        EscrowState::Released,
        EscrowState::Cancelled,
        EscrowState::Disputed,
    ] {
        let mut escrow = in_state(state);
        assert_eq!(escrow.accept(&at(account(3))), Err(EscrowError::InvalidState));
        assert_eq!(escrow.accept(&at(account(0))), Err(EscrowError::InvalidState));
    }
    let mut draft = in_state(EscrowState::Draft);
    assert_eq!(draft.accept(&at(account(3))), Err(EscrowError::Unauthorized));
    assert_eq!(draft.accept(&at(account(0))), Err(EscrowError::Unauthorized));
    assert_eq!(draft.get_state(), EscrowState::Draft);
}

#[test]
fn release_is_for_the_payer() {
    let mut escrow = in_state(EscrowState::Funded);
    assert_eq!(
        escrow.release(&at(account(0)), TransferOutcome::Completed),
        Err(EscrowError::Unauthorized)
    );
    assert_eq!(
        escrow.release(&at(account(2)), TransferOutcome::Completed),
        Err(EscrowError::Unauthorized)
    );
    assert_eq!(escrow.get_balance(), 100);
    assert!(escrow.release(&at(account(1)), TransferOutcome::Completed).is_ok());
}

#[test]
fn roles_follow_the_invoice() {
    let inv = invoice(100);
    assert!(inv.holds_role(account(0), Role::Issuer));
    assert!(!inv.holds_role(account(1), Role::Issuer));
    assert!(inv.holds_role(account(1), Role::Payer));
    assert!(!inv.holds_role(account(0), Role::Payer));
    assert!(inv.holds_role(account(2), Role::Arbiter));
    assert!(!inv.holds_role(account(1), Role::Arbiter));

    let mut open = invoice(100);
    open.arbiter = None;
    assert!(!open.holds_role(account(2), Role::Arbiter));

    let contract = Address { kind: AddressKind::Contract, hi: 0, lo: 0 };
    assert!(!inv.holds_role(contract, Role::Issuer));
}

#[test]
fn each_operation_admits_its_roles() {
    let funded = EscrowState::Funded;
    assert!(admits(Operation::Accept, EscrowState::Draft, Role::Payer));
    assert!(!admits(Operation::Accept, EscrowState::Draft, Role::Issuer));
    assert!(admits(Operation::Fund, EscrowState::Accepted, Role::Payer));
    assert!(!admits(Operation::Fund, EscrowState::Accepted, Role::Arbiter));
    assert!(admits(Operation::Release, funded, Role::Payer));
    assert!(!admits(Operation::Release, funded, Role::Issuer));
    assert!(admits(Operation::Dispute, funded, Role::Issuer));
    assert!(admits(Operation::Dispute, funded, Role::Payer));
    assert!(!admits(Operation::Dispute, funded, Role::Arbiter));
    assert!(admits(Operation::ResolveDispute, EscrowState::Disputed, Role::Arbiter));
    assert!(!admits(Operation::ResolveDispute, EscrowState::Disputed, Role::Payer));
    assert!(admits(Operation::Cancel, EscrowState::Draft, Role::Issuer));
    assert!(!admits(Operation::Cancel, EscrowState::Draft, Role::Payer));
    assert!(admits(Operation::Cancel, EscrowState::Accepted, Role::Payer));
    assert!(!admits(Operation::Cancel, EscrowState::Accepted, Role::Arbiter));
}

#[test]
fn authorize_goes_by_the_roles_a_caller_plays() {
    let inv = invoice(100);
    assert!(authorize(Operation::Accept, EscrowState::Draft, &inv, account(1)));
    assert!(!authorize(Operation::Accept, EscrowState::Draft, &inv, account(0)));
    assert!(authorize(Operation::Cancel, EscrowState::Draft, &inv, account(0)));
    assert!(!authorize(Operation::Cancel, EscrowState::Draft, &inv, account(1)));
    assert!(authorize(Operation::Cancel, EscrowState::Accepted, &inv, account(1)));
    assert!(authorize(Operation::ResolveDispute, EscrowState::Disputed, &inv, account(2)));
    assert!(!authorize(Operation::ResolveDispute, EscrowState::Disputed, &inv, account(3)));

    let mut same = invoice(100);
    same.payer = same.issuer;
    assert!(authorize(Operation::Cancel, EscrowState::Draft, &same, account(0)));
    assert!(authorize(Operation::Accept, EscrowState::Draft, &same, account(0)));
}

#[test]
fn states_are_stored_under_their_numbers() {
    let codes: Vec<u8> = STATES.iter().map(|s| s.code()).collect();
    assert_eq!(codes, vec![0, 1, 2, 3, 4, 5]);
    for state in STATES {
        assert_eq!(EscrowState::from_code(state.code()), Some(state));
    }
    assert_eq!(EscrowState::from_code(6), None);
    assert_eq!(EscrowState::from_code(255), None);
    assert_eq!(EscrowState::default(), EscrowState::Draft);
}

#[test]
fn restore_takes_only_well_formed_values() {
    assert!(Escrow::restore(EscrowState::Draft, invoice(100), 0, purse(9)).is_some());
    assert!(Escrow::restore(EscrowState::Draft, invoice(100), 1, purse(9)).is_none());
    assert!(Escrow::restore(EscrowState::Released, invoice(100), 100, purse(9)).is_none());
    assert!(Escrow::restore(EscrowState::Cancelled, invoice(100), 5, purse(9)).is_none());
    assert!(Escrow::restore(EscrowState::Funded, invoice(100), 99, purse(9)).is_none());
    assert!(Escrow::restore(EscrowState::Disputed, invoice(100), 0, purse(9)).is_none());
    assert!(Escrow::restore(EscrowState::Funded, invoice(0), 0, purse(9)).is_some());

    let kept = Escrow::restore(EscrowState::Disputed, invoice(100), 150, purse(9)).unwrap();
    assert_eq!(kept.get_state(), EscrowState::Disputed);
    assert_eq!(kept.get_balance(), 150);
    assert_eq!(kept.get_purse(), purse(9));
    assert_eq!(kept.get_invoice(), Some(invoice(100)));
}

#[test]
fn transfers_name_both_ends() {
    let deposit = Transfer::deposit(purse(1), purse(9), 40);
    assert_eq!(deposit.from, termina_escrow::Endpoint::Purse(purse(1)));
    assert_eq!(deposit.to, termina_escrow::Endpoint::Purse(purse(9)));
    assert_eq!(deposit.amount, 40);
    let payout = Transfer::payout(purse(9), account(0), 40);
    assert_eq!(payout.from, termina_escrow::Endpoint::Purse(purse(9)));
    assert_eq!(payout.to, termina_escrow::Endpoint::Account(account(0)));
    assert_eq!(payout.amount, 40);
    assert!(TransferOutcome::Completed.is_completed());
    assert!(!TransferOutcome::Failed.is_completed());
}
