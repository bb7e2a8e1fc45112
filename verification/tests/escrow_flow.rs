use escrow::addr::Address;
use escrow::errors::EscrowError;
use escrow::ledger::Ledger;
use escrow::machine::EscrowMachine;
use escrow::record::EscrowState;

fn addr(b: u8) -> Address {
    vec![b]
}

fn pid() -> Address {
    vec![9u8; 32]
}

/// A ledger with the five accounts of a standard two-party setup:
/// initializer's deposit (balance 100) and receive (0), the fresh vault
/// owned by the initializer, and the taker's deposit (balance 80) and
/// receive (0).
fn standard_setup() -> (Ledger, EscrowMachine) {
    let mut ledger = Ledger::new();
    ledger.open_account(addr(2), 100, addr(1)).unwrap();
    ledger.open_account(addr(3), 0, addr(1)).unwrap();
    ledger.open_account(addr(4), 0, addr(1)).unwrap();
    ledger.open_account(addr(6), 80, addr(5)).unwrap();
    ledger.open_account(addr(7), 0, addr(5)).unwrap();
    (ledger, EscrowMachine::new(pid()))
}

#[test]
fn initialize_funds_vault_and_opens_record() {
    let (mut ledger, mut machine) = standard_setup();
    let rec = machine
        .initialize(&mut ledger, &addr(4), &addr(1), &addr(2), &addr(3), 100, 50)
        .unwrap();
    assert_eq!(ledger.balance_of(&addr(4)), Some(100));
    assert_eq!(ledger.balance_of(&addr(2)), Some(0));
    assert_eq!(rec.state, EscrowState::Open);
    assert_eq!(rec.initializer_key, addr(1));
    assert_eq!(rec.initializer_deposit_account, addr(2));
    assert_eq!(rec.initializer_receive_account, addr(3));
    assert_eq!(rec.initializer_amount, 100);
    assert_eq!(rec.taker_amount, 50);
    let stored = machine.get_record(&addr(4)).unwrap();
    assert_eq!(stored.state, EscrowState::Open);
    assert_eq!(stored.initializer_amount, 100);
}

#[test]
fn initialize_zero_amount_fails_without_change() {
    let (mut ledger, mut machine) = standard_setup();
    let r = machine.initialize(&mut ledger, &addr(4), &addr(1), &addr(2), &addr(3), 0, 50);
    assert_eq!(r.unwrap_err(), EscrowError::InsufficientFunds);
    let r = machine.initialize(&mut ledger, &addr(4), &addr(1), &addr(2), &addr(3), 100, 0);
    assert_eq!(r.unwrap_err(), EscrowError::InsufficientFunds);
    assert_eq!(ledger.balance_of(&addr(2)), Some(100));
    assert_eq!(ledger.balance_of(&addr(4)), Some(0));
    assert!(!machine.has_record(&addr(4)));
}

#[test]
fn initialize_underfunded_fails_without_change() {
    let (mut ledger, mut machine) = standard_setup();
    let r = machine.initialize(&mut ledger, &addr(4), &addr(1), &addr(2), &addr(3), 101, 50);
    assert_eq!(r.unwrap_err(), EscrowError::InsufficientFunds);
    assert_eq!(ledger.balance_of(&addr(2)), Some(100));
    assert_eq!(ledger.balance_of(&addr(4)), Some(0));
    assert!(!machine.has_record(&addr(4)));
}

#[test]
fn initialize_occupied_slot_fails() {
    let (mut ledger, mut machine) = standard_setup();
    machine
        .initialize(&mut ledger, &addr(4), &addr(1), &addr(2), &addr(3), 40, 50)
        .unwrap();
    let r = machine.initialize(&mut ledger, &addr(4), &addr(1), &addr(2), &addr(3), 40, 50);
    assert_eq!(r.unwrap_err(), EscrowError::RecordAlreadyExists);
    assert_eq!(ledger.balance_of(&addr(4)), Some(40));
    assert_eq!(ledger.balance_of(&addr(2)), Some(60));
}

#[test]
fn initialize_used_vault_fails_custody() {
    let (mut ledger, mut machine) = standard_setup();
    // the taker's deposit account is not a fresh vault: its balance is 80
    let r = machine.initialize(&mut ledger, &addr(6), &addr(1), &addr(2), &addr(3), 100, 50);
    assert_eq!(r.unwrap_err(), EscrowError::CustodyTransferFailed);
    assert_eq!(ledger.balance_of(&addr(2)), Some(100));
    assert!(!machine.has_record(&addr(6)));
}

#[test]
fn initialize_foreign_vault_fails_custody() {
    let (mut ledger, mut machine) = standard_setup();
    // the taker's receive account is empty but not owned by the initializer
    let r = machine.initialize(&mut ledger, &addr(7), &addr(1), &addr(2), &addr(3), 100, 50);
    assert_eq!(r.unwrap_err(), EscrowError::CustodyTransferFailed);
    assert_eq!(ledger.balance_of(&addr(2)), Some(100));
}

#[test]
fn cancel_restores_depositor_and_deletes_record() {
    let (mut ledger, mut machine) = standard_setup();
    machine
        .initialize(&mut ledger, &addr(4), &addr(1), &addr(2), &addr(3), 100, 50)
        .unwrap();
    machine.cancel(&mut ledger, &addr(4), &addr(1)).unwrap();
    assert_eq!(ledger.balance_of(&addr(2)), Some(100));
    assert_eq!(ledger.balance_of(&addr(4)), Some(0));
    assert!(!machine.has_record(&addr(4)));
}

#[test]
fn cancel_by_stranger_is_unauthorized() {
    let (mut ledger, mut machine) = standard_setup();
    machine
        .initialize(&mut ledger, &addr(4), &addr(1), &addr(2), &addr(3), 100, 50)
        .unwrap();
    let r = machine.cancel(&mut ledger, &addr(4), &addr(5));
    assert_eq!(r.unwrap_err(), EscrowError::Unauthorized);
    assert_eq!(ledger.balance_of(&addr(4)), Some(100));
    assert_eq!(ledger.balance_of(&addr(2)), Some(0));
    assert!(machine.has_record(&addr(4)));
}

#[test]
fn exchange_settles_both_legs_exactly() {
    let (mut ledger, mut machine) = standard_setup();
    machine
        .initialize(&mut ledger, &addr(4), &addr(1), &addr(2), &addr(3), 100, 50)
        .unwrap();
    machine
        .exchange(&mut ledger, &addr(4), &addr(6), &addr(7))
        .unwrap();
    // initializer's receive account gained the taker amount
    assert_eq!(ledger.balance_of(&addr(3)), Some(50));
    // taker's receive account gained the full deposit
    assert_eq!(ledger.balance_of(&addr(7)), Some(100));
    // taker paid out of their deposit account
    assert_eq!(ledger.balance_of(&addr(6)), Some(30));
    // the vault is empty and the record is gone
    assert_eq!(ledger.balance_of(&addr(4)), Some(0));
    assert!(!machine.has_record(&addr(4)));
}

#[test]
fn exchange_poor_taker_fails_without_change() {
    let (mut ledger, mut machine) = standard_setup();
    machine
        .initialize(&mut ledger, &addr(4), &addr(1), &addr(2), &addr(3), 100, 90)
        .unwrap();
    let r = machine.exchange(&mut ledger, &addr(4), &addr(6), &addr(7));
    assert_eq!(r.unwrap_err(), EscrowError::InsufficientFunds);
    assert_eq!(ledger.balance_of(&addr(6)), Some(80));
    assert_eq!(ledger.balance_of(&addr(3)), Some(0));
    assert_eq!(ledger.balance_of(&addr(4)), Some(100));
    assert!(machine.has_record(&addr(4)));
}

#[test]
fn second_cancel_or_exchange_finds_no_record() {
    let (mut ledger, mut machine) = standard_setup();
    machine
        .initialize(&mut ledger, &addr(4), &addr(1), &addr(2), &addr(3), 100, 50)
        .unwrap();
    machine.cancel(&mut ledger, &addr(4), &addr(1)).unwrap();
    let r = machine.cancel(&mut ledger, &addr(4), &addr(1));
    assert_eq!(r.unwrap_err(), EscrowError::RecordNotFound);
    let r = machine.exchange(&mut ledger, &addr(4), &addr(6), &addr(7));
    assert_eq!(r.unwrap_err(), EscrowError::RecordNotFound);
    // no funds moved again
    assert_eq!(ledger.balance_of(&addr(2)), Some(100));
    assert_eq!(ledger.balance_of(&addr(4)), Some(0));
    assert_eq!(ledger.balance_of(&addr(6)), Some(80));
}

#[test]
fn second_exchange_after_settlement_finds_no_record() {
    let (mut ledger, mut machine) = standard_setup();
    machine
        .initialize(&mut ledger, &addr(4), &addr(1), &addr(2), &addr(3), 100, 50)
        .unwrap();
    machine
        .exchange(&mut ledger, &addr(4), &addr(6), &addr(7))
        .unwrap();
    let r = machine.exchange(&mut ledger, &addr(4), &addr(6), &addr(7));
    assert_eq!(r.unwrap_err(), EscrowError::RecordNotFound);
    let r = machine.cancel(&mut ledger, &addr(4), &addr(1));
    assert_eq!(r.unwrap_err(), EscrowError::RecordNotFound);
    assert_eq!(ledger.balance_of(&addr(3)), Some(50));
    assert_eq!(ledger.balance_of(&addr(7)), Some(100));
}

#[test]
fn initialize_unknown_deposit_account_fails_custody() {
    let (mut ledger, mut machine) = standard_setup();
    let r = machine.initialize(&mut ledger, &addr(4), &addr(1), &addr(8), &addr(3), 100, 50);
    assert_eq!(r.unwrap_err(), EscrowError::CustodyTransferFailed);
    assert!(!machine.has_record(&addr(4)));
}

#[test]
fn exchange_unknown_taker_deposit_fails_custody() {
    let (mut ledger, mut machine) = standard_setup();
    machine
        .initialize(&mut ledger, &addr(4), &addr(1), &addr(2), &addr(3), 100, 50)
        .unwrap();
    let r = machine.exchange(&mut ledger, &addr(4), &addr(8), &addr(7));
    assert_eq!(r.unwrap_err(), EscrowError::CustodyTransferFailed);
    assert_eq!(ledger.balance_of(&addr(4)), Some(100));
    assert!(machine.has_record(&addr(4)));
}

#[test]
fn cancel_unknown_record_not_found() {
    let (mut ledger, mut machine) = standard_setup();
    let r = machine.cancel(&mut ledger, &addr(4), &addr(1));
    assert_eq!(r.unwrap_err(), EscrowError::RecordNotFound);
}

#[test]
fn vault_authority_is_derived_not_copied() {
    let (mut ledger, mut machine) = standard_setup();
    machine
        .initialize(&mut ledger, &addr(4), &addr(1), &addr(2), &addr(3), 100, 50)
        .unwrap();
    let authority = ledger.authority_of(&addr(4)).unwrap().clone();
    // a real 32-byte program-derived address, not any input handed back
    assert_eq!(authority.len(), 32);
    assert_ne!(authority, pid());
    assert_ne!(authority, addr(1));
    assert_ne!(authority, b"escrow".to_vec());
}

#[test]
fn vault_authority_is_deterministic_in_the_program() {
    let (mut ledger_a, mut machine_a) = standard_setup();
    let (mut ledger_b, mut machine_b) = standard_setup();
    machine_a
        .initialize(&mut ledger_a, &addr(4), &addr(1), &addr(2), &addr(3), 100, 50)
        .unwrap();
    machine_b
        .initialize(&mut ledger_b, &addr(4), &addr(1), &addr(2), &addr(3), 10, 5)
        .unwrap();
    assert_eq!(
        ledger_a.authority_of(&addr(4)).unwrap(),
        ledger_b.authority_of(&addr(4)).unwrap()
    );
    // a different program identity derives a different authority
    let mut ledger_c = Ledger::new();
    ledger_c.open_account(addr(2), 100, addr(1)).unwrap();
    ledger_c.open_account(addr(4), 0, addr(1)).unwrap();
    let mut machine_c = EscrowMachine::new(vec![8u8; 32]);
    machine_c
        .initialize(&mut ledger_c, &addr(4), &addr(1), &addr(2), &addr(3), 100, 50)
        .unwrap();
    assert_ne!(
        ledger_a.authority_of(&addr(4)).unwrap(),
        ledger_c.authority_of(&addr(4)).unwrap()
    );
}
