use std::collections::HashMap;
use transaction_processing_engine::account::Account;
use transaction_processing_engine::amount::Amount;
use transaction_processing_engine::common::{InputData, TransactionKind};
use transaction_processing_engine::engine::{process_record, run_engine};
use transaction_processing_engine::errors::AccountingError;

fn dec(n: i64) -> Amount {
    Amount::from_whole(n)
}

fn deposit(c: u16, tx: u32, amt: i64) -> InputData {
    InputData::new(TransactionKind::Deposit, c, tx, Some(dec(amt)))
}

fn dispute(c: u16, tx: u32) -> InputData {
    InputData::new(TransactionKind::Dispute, c, tx, Some(dec(0)))
}

fn chargeback(c: u16, tx: u32) -> InputData {
    InputData::new(TransactionKind::Chargeback, c, tx, Some(dec(0)))
}

fn snapshot(accounts: &HashMap<u16, Account>, c: u16) -> (i128, i128, i128, bool) {
    let acc = &accounts[&c];
    (acc.available.units(), acc.held.units(), acc.total.units(), acc.locked)
}

#[test]
fn deposit_and_chargeback_locks_account() {
    let mut accounts = HashMap::new();
    let mut txs = HashMap::new();

    process_record(&deposit(1, 1, 10), &mut accounts, &mut txs).unwrap();
    process_record(&dispute(1, 1), &mut accounts, &mut txs).unwrap();
    process_record(&chargeback(1, 1), &mut accounts, &mut txs).unwrap();

    let acc = &accounts[&1];
    assert!(acc.locked);
    assert_eq!(acc.total, dec(0));
}

#[test]
fn single_client_dispute_flow() {
    let events = vec![
        InputData::deposit(1, 1, dec(10)),
        InputData::withdrawal(1, 2, dec(5)),
        InputData::dispute(1, 2),
        InputData::resolve(1, 2),
    ];

    let accounts = run_engine(&events);
    let acc = &accounts[&1];

    assert_eq!(acc.available, dec(5));
    assert_eq!(acc.held, dec(0));
    assert_eq!(acc.total, dec(5));
    assert!(!acc.locked);
}

#[test]
fn run_engine_end_to_end() {
    let events = vec![
        InputData::deposit(1, 1, dec(10)),
        InputData::withdrawal(1, 2, dec(5)),
        InputData::dispute(1, 2),
        InputData::resolve(1, 2),
    ];

    let accounts = run_engine(&events);
    let acc = &accounts[&1];

    assert_eq!(acc.available, dec(5));
    assert_eq!(acc.total, dec(5));
    assert!(!acc.locked);
}

#[test]
fn scenario_single_deposit() {
    let accounts = run_engine(&vec![InputData::deposit(1, 1, dec(10))]);
    assert_eq!(snapshot(&accounts, 1), (100000, 0, 100000, false));
}

#[test]
fn scenario_deposit_then_withdrawal() {
    let accounts =
        run_engine(&vec![InputData::deposit(1, 1, dec(10)), InputData::withdrawal(1, 2, dec(5))]);
    assert_eq!(snapshot(&accounts, 1), (50000, 0, 50000, false));
}

#[test]
fn scenario_disputed_withdrawal_resolved() {
    let accounts = run_engine(&vec![
        InputData::deposit(1, 1, dec(10)),
        InputData::withdrawal(1, 2, dec(5)),
        InputData::dispute(1, 2),
        InputData::resolve(1, 2),
    ]);
    assert_eq!(snapshot(&accounts, 1), (50000, 0, 50000, false));
}

#[test]
fn scenario_disputed_deposit_charged_back() {
    let accounts = run_engine(&vec![
        InputData::deposit(1, 1, dec(10)),
        InputData::dispute(1, 1),
        InputData::chargeback(1, 1),
    ]);
    assert_eq!(snapshot(&accounts, 1), (0, 0, 0, true));
}

#[test]
fn scenario_withdrawal_beyond_funds_rejected() {
    let mut accounts = HashMap::new();
    let mut txs = HashMap::new();
    assert_eq!(process_record(&InputData::deposit(1, 1, dec(5)), &mut accounts, &mut txs), Ok(()));
    assert_eq!(
        process_record(&InputData::withdrawal(1, 2, dec(10)), &mut accounts, &mut txs),
        Ok(())
    );
    assert_eq!(snapshot(&accounts, 1), (50000, 0, 50000, false));
    assert!(!txs.contains_key(&2));
    assert!(txs.contains_key(&1));
}

#[test]
fn scenario_dispute_of_unknown_transaction() {
    let mut accounts = HashMap::new();
    let mut txs = HashMap::new();
    assert_eq!(process_record(&InputData::dispute(1, 99), &mut accounts, &mut txs), Ok(()));
    assert_eq!(snapshot(&accounts, 1), (0, 0, 0, false));
    assert!(txs.is_empty());
}

#[test]
fn repeated_dispute_is_a_no_op() {
    let mut accounts = HashMap::new();
    let mut txs = HashMap::new();
    process_record(&InputData::deposit(1, 1, dec(10)), &mut accounts, &mut txs).unwrap();
    process_record(&InputData::dispute(1, 1), &mut accounts, &mut txs).unwrap();
    let once = snapshot(&accounts, 1);
    let entry = txs[&1];
    process_record(&InputData::dispute(1, 1), &mut accounts, &mut txs).unwrap();
    assert_eq!(snapshot(&accounts, 1), once);
    assert_eq!(once, (0, 100000, 100000, false));
    assert_eq!(txs[&1], entry);
    assert!(entry.disputed());
}

#[test]
fn dispute_order_decides_the_outcome() {
    let locked = run_engine(&vec![
        InputData::deposit(1, 1, dec(10)),
        InputData::dispute(1, 1),
        InputData::chargeback(1, 1),
    ]);
    assert!(locked[&1].locked);

    let resolved = run_engine(&vec![
        InputData::deposit(1, 1, dec(10)),
        InputData::dispute(1, 1),
        InputData::resolve(1, 1),
    ]);
    assert_eq!(snapshot(&resolved, 1), (100000, 0, 100000, false));

    let direct =
        run_engine(&vec![InputData::deposit(1, 1, dec(10)), InputData::chargeback(1, 1)]);
    assert_eq!(snapshot(&direct, 1), (100000, 0, 100000, false));
}

#[test]
fn locked_account_rejects_every_event() {
    let mut accounts = HashMap::new();
    let mut txs = HashMap::new();
    process_record(&InputData::deposit(1, 1, dec(10)), &mut accounts, &mut txs).unwrap();
    process_record(&InputData::deposit(1, 2, dec(3)), &mut accounts, &mut txs).unwrap();
    process_record(&InputData::dispute(1, 1), &mut accounts, &mut txs).unwrap();
    process_record(&InputData::chargeback(1, 1), &mut accounts, &mut txs).unwrap();
    let frozen = snapshot(&accounts, 1);
    assert_eq!(frozen, (30000, 0, 30000, true));

    let later = vec![
        InputData::deposit(1, 3, dec(4)),
        InputData::withdrawal(1, 4, dec(1)),
        InputData::dispute(1, 2),
        InputData::resolve(1, 1),
        InputData::chargeback(1, 2),
    ];
    for e in &later {
        assert_eq!(process_record(e, &mut accounts, &mut txs), Err(AccountingError::AccountLocked));
        assert_eq!(snapshot(&accounts, 1), frozen);
    }
    assert!(!txs.contains_key(&3));
    assert!(!txs[&2].disputed());
}

#[test]
fn total_is_available_plus_held_throughout() {
    let events = vec![
        InputData::deposit(1, 1, dec(10)),
        InputData::deposit(2, 2, dec(7)),
        InputData::withdrawal(1, 3, dec(4)),
        InputData::dispute(1, 1),
        InputData::dispute(2, 2),
        InputData::resolve(2, 2),
        InputData::withdrawal(2, 4, dec(2)),
        InputData::dispute(1, 3),
        InputData::chargeback(1, 1),
    ];
    let mut accounts = HashMap::new();
    let mut txs = HashMap::new();
    for e in &events {
        let _ = process_record(e, &mut accounts, &mut txs);
        for acc in accounts.values() {
            assert_eq!(acc.total.units(), acc.available.units() + acc.held.units());
        }
    }
    assert_eq!(snapshot(&accounts, 1), (-80000, 40000, -40000, true));
    assert_eq!(snapshot(&accounts, 2), (50000, 0, 50000, false));
}

#[test]
fn references_must_match_client_and_state() {
    let mut accounts = HashMap::new();
    let mut txs = HashMap::new();
    process_record(&InputData::deposit(1, 1, dec(10)), &mut accounts, &mut txs).unwrap();
    process_record(&InputData::dispute(2, 1), &mut accounts, &mut txs).unwrap();
    process_record(&InputData::resolve(1, 1), &mut accounts, &mut txs).unwrap();
    assert_eq!(snapshot(&accounts, 1), (100000, 0, 100000, false));
    assert_eq!(snapshot(&accounts, 2), (0, 0, 0, false));
    assert!(!txs[&1].disputed());
}

#[test]
fn missing_amount_counts_as_zero() {
    let record = InputData::new(TransactionKind::Deposit, 5, 8, None);
    assert_eq!(record.amount(), dec(0));
    let accounts = run_engine(&vec![record]);
    assert_eq!(snapshot(&accounts, 5), (0, 0, 0, false));
}

#[test]
fn overflowing_deposit_is_rejected() {
    let mut accounts = HashMap::new();
    let mut txs = HashMap::new();
    let big = Amount::from_units(79228162514264337593543950335).unwrap();
    process_record(&InputData::deposit(1, 1, big), &mut accounts, &mut txs).unwrap();
    assert_eq!(
        process_record(&InputData::deposit(1, 2, dec(1)), &mut accounts, &mut txs),
        Err(AccountingError::Overflow)
    );
    assert_eq!(accounts[&1].total, big);
    assert!(!txs.contains_key(&2));
}

#[test]
fn keyword_names_kind_in_any_case() {
    assert_eq!(TransactionKind::from_keyword("deposit"), Some(TransactionKind::Deposit));
    assert_eq!(TransactionKind::from_keyword("WithDrawal"), Some(TransactionKind::Withdrawal));
    assert_eq!(TransactionKind::from_keyword("DISPUTE"), Some(TransactionKind::Dispute));
    assert_eq!(TransactionKind::from_keyword("Resolve"), Some(TransactionKind::Resolve));
    assert_eq!(TransactionKind::from_keyword("chargeBack"), Some(TransactionKind::Chargeback));
    assert_eq!(TransactionKind::from_keyword("deposits"), None);
    assert_eq!(TransactionKind::from_keyword(""), None);
    assert_eq!(TransactionKind::from_keyword("refund"), None);
}
