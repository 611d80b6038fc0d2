use crate::account::Account;
use crate::amount::{in_range, Amount};
use crate::common::{InputData, TransactionKind};
use crate::engine::{account_in, ledger_wf, run, step};
use crate::transaction::Transaction;
use vstd::prelude::*;

verus! {

/// An event applied to a well-formed ledger leaves it well formed: in
/// particular every account's total stays the sum of its available and
/// held funds.
pub proof fn lemma_step_keeps_balances(
    accts: Map<u16, Account>,
    txs: Map<u32, Transaction>,
    r: InputData,
)
    requires
        ledger_wf(accts, txs),
        r.wf(),
    ensures
        ledger_wf(step(accts, txs, r).0, step(accts, txs, r).1),
        forall|c: u16| #[trigger]
            step(accts, txs, r).0.contains_key(c) ==> step(accts, txs, r).0[c].total.units
                == step(accts, txs, r).0[c].available.units + step(accts, txs, r).0[c].held.units,
{
    let s = step(accts, txs, r);
    assert forall|c: u16| #[trigger] s.0.contains_key(c) implies s.0[c].wf() by {
        if c != r.client {
            assert(accts.contains_key(c));
        }
    }
    assert forall|t: u32| #[trigger] s.1.contains_key(t) implies s.1[t].amount.wf() by {
        if t != r.tx {
            assert(txs.contains_key(t));
        }
    }
}

/// At every point of a run, every account's total is the sum of its
/// available and held funds.
pub proof fn lemma_run_keeps_balances(events: Seq<InputData>)
    requires
        forall|i: int| 0 <= i < events.len() ==> (#[trigger] events[i]).wf(),
    ensures
        ledger_wf(run(events).0, run(events).1),
        forall|c: u16| #[trigger]
            run(events).0.contains_key(c) ==> run(events).0[c].total.units
                == run(events).0[c].available.units + run(events).0[c].held.units,
    decreases events.len(),
{
    if events.len() > 0 {
        let prev = events.drop_last();
        assert forall|i: int| 0 <= i < prev.len() implies (#[trigger] prev[i]).wf() by {
            assert(prev[i] == events[i]);
        }
        lemma_run_keeps_balances(prev);
        lemma_step_keeps_balances(run(prev).0, run(prev).1, events.last());
    }
}

/// No event changes a locked account.
pub proof fn lemma_locked_account_unchanged(
    accts: Map<u16, Account>,
    txs: Map<u32, Transaction>,
    r: InputData,
    c: u16,
)
    requires
        accts.contains_key(c),
        accts[c].locked,
    ensures
        step(accts, txs, r).0.contains_key(c),
        step(accts, txs, r).0[c] == accts[c],
{
}

/// Once an account is locked at some point of a run, it keeps the same
/// balances, and stays locked, for the rest of the run.
pub proof fn lemma_locked_account_frozen(events: Seq<InputData>, i: int, j: int, c: u16)
    requires
        0 <= i <= j <= events.len(),
        run(events.take(i)).0.contains_key(c),
        run(events.take(i)).0[c].locked,
    ensures
        run(events.take(j)).0.contains_key(c),
        run(events.take(j)).0[c] == run(events.take(i)).0[c],
    decreases j - i,
{
    if j > i {
        lemma_locked_account_frozen(events, i, j - 1, c);
        assert(events.take(j).drop_last() == events.take(j - 1));
        let prev = run(events.take(j - 1));
        lemma_locked_account_unchanged(prev.0, prev.1, events[j - 1], c);
    }
}

/// A second dispute of the same entry changes nothing: disputing twice has
/// the effect of disputing once.
pub proof fn lemma_repeated_dispute(
    accts: Map<u16, Account>,
    txs: Map<u32, Transaction>,
    r: InputData,
)
    requires
        r.kind == TransactionKind::Dispute,
    ensures
        step(step(accts, txs, r).0, step(accts, txs, r).1, r).0 == step(accts, txs, r).0,
        step(step(accts, txs, r).0, step(accts, txs, r).1, r).1 == step(accts, txs, r).1,
{
    let s1 = step(accts, txs, r);
    let s2 = step(s1.0, s1.1, r);
    assert(s2.0 =~= s1.0);
    assert(s2.1 =~= s1.1);
}

pub open spec fn deposit_event(c: u16, t: u32, a: Amount) -> InputData {
    InputData { kind: TransactionKind::Deposit, client: c, tx: t, amount: Some(a) }
}

pub open spec fn reference_event(kind: TransactionKind, c: u16, t: u32) -> InputData {
    InputData { kind, client: c, tx: t, amount: None }
}

/// Outcomes depend on order: a deposit, its dispute and a chargeback lock
/// the account; a deposit, its dispute and a resolve leave it unlocked; a
/// chargeback straight after the deposit, with no dispute, changes nothing.
/// This holds for any unlocked account whose balances leave room for the
/// amount.
pub proof fn lemma_dispute_order(
    accts: Map<u16, Account>,
    txs: Map<u32, Transaction>,
    c: u16,
    t: u32,
    a: Amount,
)
    requires
        ledger_wf(accts, txs),
        a.wf(),
        !account_in(accts, c).locked,
        in_range(account_in(accts, c).available.units + a.units),
        in_range(account_in(accts, c).held.units + a.units),
        in_range(account_in(accts, c).total.units + a.units),
    ensures
        ({
            let s1 = step(accts, txs, deposit_event(c, t, a));
            let s2 = step(s1.0, s1.1, reference_event(TransactionKind::Dispute, c, t));
            let locked = step(s2.0, s2.1, reference_event(TransactionKind::Chargeback, c, t));
            let resolved = step(s2.0, s2.1, reference_event(TransactionKind::Resolve, c, t));
            let direct = step(s1.0, s1.1, reference_event(TransactionKind::Chargeback, c, t));
            &&& locked.0[c].locked
            &&& !resolved.0[c].locked
            &&& direct.0 == s1.0
            &&& direct.1 == s1.1
            &&& !direct.0[c].locked
        }),
{
    let s1 = step(accts, txs, deposit_event(c, t, a));
    let direct = step(s1.0, s1.1, reference_event(TransactionKind::Chargeback, c, t));
    assert(direct.0 =~= s1.0);
}

} // verus!
