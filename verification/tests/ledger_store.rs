use escrow::addr::{addr_eq, clone_address, Address};
use escrow::errors::{EscrowError, LedgerError};
use escrow::ledger::Ledger;
use escrow::record::{EscrowRecord, EscrowState};
use escrow::store::RecordStore;
use escrow::table::Table;

fn addr(b: u8) -> Address {
    vec![b]
}

fn sample_record() -> EscrowRecord {
    EscrowRecord {
        initializer_key: addr(1),
        initializer_deposit_account: addr(2),
        initializer_receive_account: addr(3),
        initializer_amount: 100,
        taker_amount: 50,
        state: EscrowState::Open,
    }
}

#[test]
fn addresses_compare_by_bytes() {
    assert!(addr_eq(&addr(1), &addr(1)));
    assert!(!addr_eq(&addr(1), &addr(2)));
    assert!(!addr_eq(&addr(1), &vec![1, 1]));
    assert_eq!(clone_address(&vec![3, 4, 5]), vec![3, 4, 5]);
}

#[test]
fn table_files_and_removes_values() {
    let mut t: Table<u64> = Table::new();
    assert!(!t.contains(&addr(1)));
    t.insert(addr(1), 10);
    t.insert(addr(2), 20);
    assert!(t.contains(&addr(1)));
    assert_eq!(t.get(&addr(1)), Some(&10));
    assert_eq!(t.get(&addr(2)), Some(&20));
    assert_eq!(t.get(&addr(3)), None);
    t.update(&addr(1), 11);
    assert_eq!(t.get(&addr(1)), Some(&11));
    assert_eq!(t.remove(&addr(1)), 11);
    assert!(!t.contains(&addr(1)));
    assert_eq!(t.get(&addr(2)), Some(&20));
}

#[test]
fn ledger_transfer_moves_funds() {
    let mut l = Ledger::new();
    l.open_account(addr(1), 70, addr(9)).unwrap();
    l.open_account(addr(2), 5, addr(9)).unwrap();
    assert!(l.has_account(&addr(1)));
    assert!(!l.has_account(&addr(9)));
    l.transfer(&addr(1), &addr(2), 30).unwrap();
    assert_eq!(l.balance_of(&addr(1)), Some(40));
    assert_eq!(l.balance_of(&addr(2)), Some(35));
}

#[test]
fn ledger_self_transfer_changes_nothing() {
    let mut l = Ledger::new();
    l.open_account(addr(1), 70, addr(9)).unwrap();
    l.transfer(&addr(1), &addr(1), 30).unwrap();
    assert_eq!(l.balance_of(&addr(1)), Some(70));
}

#[test]
fn ledger_reports_each_failure() {
    let mut l = Ledger::new();
    l.open_account(addr(1), 70, addr(9)).unwrap();
    l.open_account(addr(2), u64::MAX - 10, addr(9)).unwrap();
    assert_eq!(
        l.open_account(addr(1), 0, addr(9)).unwrap_err(),
        LedgerError::AccountExists
    );
    assert_eq!(
        l.transfer(&addr(3), &addr(1), 1).unwrap_err(),
        LedgerError::UnknownAccount
    );
    assert_eq!(
        l.transfer(&addr(1), &addr(3), 1).unwrap_err(),
        LedgerError::UnknownAccount
    );
    assert_eq!(
        l.transfer(&addr(1), &addr(2), 71).unwrap_err(),
        LedgerError::InsufficientBalance
    );
    assert_eq!(
        l.transfer(&addr(1), &addr(2), 11).unwrap_err(),
        LedgerError::BalanceOverflow
    );
    // nothing moved
    assert_eq!(l.balance_of(&addr(1)), Some(70));
    assert_eq!(l.balance_of(&addr(2)), Some(u64::MAX - 10));
}

#[test]
fn ledger_set_authority_retags_account() {
    let mut l = Ledger::new();
    l.open_account(addr(1), 70, addr(9)).unwrap();
    l.set_authority(&addr(1), addr(8)).unwrap();
    assert_eq!(l.authority_of(&addr(1)), Some(&addr(8)));
    assert_eq!(l.balance_of(&addr(1)), Some(70));
    assert_eq!(
        l.set_authority(&addr(2), addr(8)).unwrap_err(),
        LedgerError::UnknownAccount
    );
}

#[test]
fn store_put_get_delete_round_trip() {
    let mut s = RecordStore::new();
    assert!(!s.contains(&addr(4)));
    s.put(addr(4), sample_record()).unwrap();
    assert!(s.contains(&addr(4)));
    let rec = s.get(&addr(4)).unwrap();
    assert_eq!(rec.initializer_amount, 100);
    assert_eq!(rec.state, EscrowState::Open);
    assert_eq!(
        s.put(addr(4), sample_record()).unwrap_err(),
        EscrowError::RecordAlreadyExists
    );
    let rec = s.delete(&addr(4)).unwrap();
    assert_eq!(rec.taker_amount, 50);
    assert!(!s.contains(&addr(4)));
    assert_eq!(s.delete(&addr(4)).unwrap_err(), EscrowError::RecordNotFound);
}
