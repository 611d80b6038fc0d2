use vstd::prelude::*;

verus! {

/// Why an event left the ledger unchanged.
#[derive(Clone, Copy, Debug, PartialEq, Eq, Structural)]
pub enum AccountingError {
    /// A withdrawal asked for more than the available funds.
    InsufficientFunds,
    /// The account was locked by an earlier chargeback.
    AccountLocked,
    /// A balance would leave the range that an amount can hold.
    Overflow,
}

} // verus!
