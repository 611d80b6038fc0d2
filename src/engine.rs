use crate::account::Account;
use crate::amount::Amount;
use crate::common::{InputData, TransactionKind};
use crate::errors::AccountingError;
use crate::transaction::Transaction;
use std::collections::HashMap;
use vstd::prelude::*;

verus! {

broadcast use vstd::std_specs::hash::group_hash_axioms;

pub type AccountsHash = HashMap<u16, Account>;

pub type TransactionHash = HashMap<u32, Transaction>;

/// The accounts and the ledger entries.
pub type LedgerState = (Map<u16, Account>, Map<u32, Transaction>);

/// The account a client has, or a fresh one where it has none yet.
pub open spec fn account_in(accts: Map<u16, Account>, c: u16) -> Account {
    if accts.contains_key(c) {
        accts[c]
    } else {
        Account::fresh()
    }
}

/// Every account is well formed and every ledger entry holds an amount in range.
pub open spec fn ledger_wf(accts: Map<u16, Account>, txs: Map<u32, Transaction>) -> bool {
    &&& forall|c: u16| #[trigger] accts.contains_key(c) ==> accts[c].wf()
    &&& forall|t: u32| #[trigger] txs.contains_key(t) ==> txs[t].amount.wf()
}

/// Whether the entry `tx` exists, belongs to `client`, and has the given dispute mark.
pub open spec fn entry_matches(
    txs: Map<u32, Transaction>,
    tx: u32,
    client: u16,
    disputed: bool,
) -> bool {
    txs.contains_key(tx) && txs[tx].disputed == disputed && txs[tx].client == client
}

/// What an event does to its client's account and to the ledger entries,
/// and what it reports.
pub open spec fn apply_event(acct: Account, txs: Map<u32, Transaction>, r: InputData) -> (
    Account,
    Map<u32, Transaction>,
    Result<(), AccountingError>,
) {
    let a = r.amount_or_zero();
    let fresh_entry = Transaction { client: r.client, amount: a, disputed: false };
    if acct.locked {
        (acct, txs, Err(AccountingError::AccountLocked))
    } else {
        match r.kind {
            TransactionKind::Deposit => {
                if acct.deposit_fits(a) {
                    (acct.after_deposit(a), txs.insert(r.tx, fresh_entry), Ok(()))
                } else {
                    (acct, txs, Err(AccountingError::Overflow))
                }
            },
            TransactionKind::Withdrawal => {
                if acct.available.units < a.units {
                    (acct, txs, Ok(()))
                } else if acct.withdraw_fits(a) {
                    (acct.after_withdraw(a), txs.insert(r.tx, fresh_entry), Ok(()))
                } else {
                    (acct, txs, Err(AccountingError::Overflow))
                }
            },
            TransactionKind::Dispute => {
                if !entry_matches(txs, r.tx, r.client, false) {
                    (acct, txs, Ok(()))
                } else if acct.dispute_fits(txs[r.tx].amount) {
                    (
                        acct.after_dispute(txs[r.tx].amount),
                        txs.insert(r.tx, Transaction { disputed: true, ..txs[r.tx] }),
                        Ok(()),
                    )
                } else {
                    (acct, txs, Err(AccountingError::Overflow))
                }
            },
            TransactionKind::Resolve => {
                if !entry_matches(txs, r.tx, r.client, true) {
                    (acct, txs, Ok(()))
                } else if acct.resolve_fits(txs[r.tx].amount) {
                    (
                        acct.after_resolve(txs[r.tx].amount),
                        txs.insert(r.tx, Transaction { disputed: false, ..txs[r.tx] }),
                        Ok(()),
                    )
                } else {
                    (acct, txs, Err(AccountingError::Overflow))
                }
            },
            TransactionKind::Chargeback => {
                if !entry_matches(txs, r.tx, r.client, true) {
                    (acct, txs, Ok(()))
                } else if acct.chargeback_fits(txs[r.tx].amount) {
                    (
                        acct.after_chargeback(txs[r.tx].amount),
                        txs.insert(r.tx, Transaction { disputed: false, ..txs[r.tx] }),
                        Ok(()),
                    )
                } else {
                    (acct, txs, Err(AccountingError::Overflow))
                }
            },
        }
    }
}

/// One event applied to the whole ledger. The client's account is opened
/// by any event that names it, even one that changes nothing.
pub open spec fn step(accts: Map<u16, Account>, txs: Map<u32, Transaction>, r: InputData) -> (
    Map<u16, Account>,
    Map<u32, Transaction>,
    Result<(), AccountingError>,
) {
    let (acct, txs2, res) = apply_event(account_in(accts, r.client), txs, r);
    (accts.insert(r.client, acct), txs2, res)
}

/// The ledger after a run over `events`, in order, from an empty start.
pub open spec fn run(events: Seq<InputData>) -> LedgerState
    decreases events.len(),
{
    if events.len() == 0 {
        (Map::empty(), Map::empty())
    } else {
        let prev = run(events.drop_last());
        let s = step(prev.0, prev.1, events.last());
        (s.0, s.1)
    }
}

/// Applies one event to the accounts and the ledger entries. Accounting
/// errors are reported and leave both unchanged; a withdrawal beyond the
/// available funds, and a dispute, resolve or chargeback that names no
/// suitable entry, change nothing and report success.
pub fn process_record(
    record: &InputData,
    accounts: &mut AccountsHash,
    transactions: &mut TransactionHash,
) -> (r: Result<(), AccountingError>)
    requires
        ledger_wf(old(accounts)@, old(transactions)@),
        record.wf(),
    ensures
        (final(accounts)@, final(transactions)@, r) == step(
            old(accounts)@,
            old(transactions)@,
            *record,
        ),
        ledger_wf(final(accounts)@, final(transactions)@),
{
    let c = record.client;
    let mut account = match accounts.get(&c) {
        Some(a) => *a,
        None => Account::new(),
    };
    let found: Option<Transaction> = match transactions.get(&record.tx) {
        Some(t) => Some(*t),
        None => None,
    };
    let mut entry: Option<Transaction> = None;
    let result = if account.locked {
        Err(AccountingError::AccountLocked)
    } else {
        match record.kind {
            TransactionKind::Deposit => {
                let amount = record.amount();
                if account.can_deposit(amount) {
                    account.deposit(amount);
                    entry = Some(Transaction::new(c, amount, false));
                    Ok(())
                } else {
                    Err(AccountingError::Overflow)
                }
            },
            TransactionKind::Withdrawal => {
                let amount = record.amount();
                if account.available.units < amount.units {
                    Ok(())
                } else if account.can_withdraw(amount) {
                    let _ = account.withdraw(amount);
                    entry = Some(Transaction::new(c, amount, false));
                    Ok(())
                } else {
                    Err(AccountingError::Overflow)
                }
            },
            TransactionKind::Dispute => match found {
                Some(t) if !t.disputed() && t.client == c => {
                    if account.can_dispute(t.amount) {
                        account.dispute(t.amount);
                        let mut t2 = t;
                        t2.set_disputed();
                        entry = Some(t2);
                        Ok(())
                    } else {
                        Err(AccountingError::Overflow)
                    }
                },
                _ => Ok(()),
            },
            TransactionKind::Resolve => match found {
                Some(t) if t.disputed() && t.client == c => {
                    if account.can_resolve(t.amount) {
                        account.resolve(t.amount);
                        let mut t2 = t;
                        t2.resolved();
                        entry = Some(t2);
                        Ok(())
                    } else {
                        Err(AccountingError::Overflow)
                    }
                },
                _ => Ok(()),
            },
            TransactionKind::Chargeback => match found {
                Some(t) if t.disputed() && t.client == c => {
                    if account.can_chargeback(t.amount) {
                        account.chargeback(t.amount);
                        let mut t2 = t;
                        t2.resolved();
                        entry = Some(t2);
                        Ok(())
                    } else {
                        Err(AccountingError::Overflow)
                    }
                },
                _ => Ok(()),
            },
        }
    };
    if let Some(t) = entry {
        transactions.insert(record.tx, t);
    }
    accounts.insert(c, account);
    result
}

/// Applies every event in order to a fresh ledger and returns the accounts
/// of every client that an event named.
pub fn run_engine(events: &Vec<InputData>) -> (r: AccountsHash)
    requires
        forall|i: int| 0 <= i < events@.len() ==> (#[trigger] events@[i]).wf(),
    ensures
        r@ == run(events@).0,
        forall|c: u16| #[trigger] r@.contains_key(c) ==> r@[c].wf(),
{
    let mut accounts: AccountsHash = HashMap::new();
    let mut transactions: TransactionHash = HashMap::new();
    let mut i: usize = 0;
    while i < events.len()
        invariant
            0 <= i <= events@.len(),
            forall|j: int| 0 <= j < events@.len() ==> (#[trigger] events@[j]).wf(),
            (accounts@, transactions@) == run(events@.take(i as int)),
            ledger_wf(accounts@, transactions@),
        decreases events@.len() - i,
    {
        assert(events@.take(i as int + 1).drop_last() == events@.take(i as int));
        let _ = process_record(&events[i], &mut accounts, &mut transactions);
        i += 1;
    }
    assert(events@.take(i as int) == events@);
    accounts
}

} // verus!
