use crate::amount::{diff_in_range, in_range, sum_in_range, Amount};
use crate::errors::AccountingError;
use vstd::prelude::*;

verus! {

/// A client's balances. `total` is always `available + held`; once
/// `locked` is set by a chargeback the account no longer changes.
#[derive(Clone, Copy, Debug, PartialEq, Eq, Structural)]
pub struct Account {
    pub available: Amount,
    pub held: Amount,
    pub total: Amount,
    pub locked: bool,
}

/// The account with the given balances, each in units.
pub open spec fn account_of_units(available: int, held: int, total: int, locked: bool) -> Account {
    Account {
        available: Amount { units: available as i128 },
        held: Amount { units: held as i128 },
        total: Amount { units: total as i128 },
        locked,
    }
}

impl Account {
    /// Every balance is in range and the total is the sum of the other two.
    pub open spec fn wf(self) -> bool {
        &&& self.available.wf()
        &&& self.held.wf()
        &&& self.total.wf()
        &&& self.total.units == self.available.units + self.held.units
    }

    /// A newly opened account: zero balances, unlocked.
    pub open spec fn fresh() -> Account {
        Account {
            available: Amount::spec_zero(),
            held: Amount::spec_zero(),
            total: Amount::spec_zero(),
            locked: false,
        }
    }

    pub open spec fn deposit_fits(self, a: Amount) -> bool {
        in_range(self.available.units + a.units) && in_range(self.total.units + a.units)
    }

    pub open spec fn withdraw_fits(self, a: Amount) -> bool {
        in_range(self.available.units - a.units) && in_range(self.total.units - a.units)
    }

    pub open spec fn dispute_fits(self, a: Amount) -> bool {
        in_range(self.available.units - a.units) && in_range(self.held.units + a.units)
    }

    pub open spec fn resolve_fits(self, a: Amount) -> bool {
        in_range(self.held.units - a.units) && in_range(self.available.units + a.units)
    }

    pub open spec fn chargeback_fits(self, a: Amount) -> bool {
        in_range(self.held.units - a.units) && in_range(self.total.units - a.units)
    }

    pub open spec fn after_deposit(self, a: Amount) -> Account {
        account_of_units(
            self.available.units + a.units,
            self.held.units as int,
            self.total.units + a.units,
            self.locked,
        )
    }

    pub open spec fn after_withdraw(self, a: Amount) -> Account {
        account_of_units(
            self.available.units - a.units,
            self.held.units as int,
            self.total.units - a.units,
            self.locked,
        )
    }

    pub open spec fn after_dispute(self, a: Amount) -> Account {
        account_of_units(
            self.available.units - a.units,
            self.held.units + a.units,
            self.total.units as int,
            self.locked,
        )
    }

    pub open spec fn after_resolve(self, a: Amount) -> Account {
        account_of_units(
            self.available.units + a.units,
            self.held.units - a.units,
            self.total.units as int,
            self.locked,
        )
    }

    pub open spec fn after_chargeback(self, a: Amount) -> Account {
        account_of_units(
            self.available.units as int,
            self.held.units - a.units,
            self.total.units - a.units,
            true,
        )
    }

    pub fn new() -> (r: Account)
        ensures
            r == Account::fresh(),
            r.wf(),
    {
        Account {
            available: Amount::zero(),
            held: Amount::zero(),
            total: Amount::zero(),
            locked: false,
        }
    }

    pub fn can_deposit(&self, amount: Amount) -> (r: bool)
        requires
            self.wf(),
            amount.wf(),
        ensures
            r == self.deposit_fits(amount),
    {
        sum_in_range(self.available.units, amount.units) && sum_in_range(
            self.total.units,
            amount.units,
        )
    }

    pub fn can_withdraw(&self, amount: Amount) -> (r: bool)
        requires
            self.wf(),
            amount.wf(),
        ensures
            r == self.withdraw_fits(amount),
    {
        diff_in_range(self.available.units, amount.units) && diff_in_range(
            self.total.units,
            amount.units,
        )
    }

    pub fn can_dispute(&self, amount: Amount) -> (r: bool)
        requires
            self.wf(),
            amount.wf(),
        ensures
            r == self.dispute_fits(amount),
    {
        diff_in_range(self.available.units, amount.units) && sum_in_range(
            self.held.units,
            amount.units,
        )
    }

    pub fn can_resolve(&self, amount: Amount) -> (r: bool)
        requires
            self.wf(),
            amount.wf(),
        ensures
            r == self.resolve_fits(amount),
    {
        diff_in_range(self.held.units, amount.units) && sum_in_range(
            self.available.units,
            amount.units,
        )
    }

    pub fn can_chargeback(&self, amount: Amount) -> (r: bool)
        requires
            self.wf(),
            amount.wf(),
        ensures
            r == self.chargeback_fits(amount),
    {
        diff_in_range(self.held.units, amount.units) && diff_in_range(
            self.total.units,
            amount.units,
        )
    }

    /// Adds `amount` to the available funds and the total.
    pub fn deposit(&mut self, amount: Amount)
        requires
            old(self).wf(),
            amount.wf(),
            old(self).deposit_fits(amount),
        ensures
            *final(self) == old(self).after_deposit(amount),
            final(self).wf(),
    {
        self.available = Amount { units: self.available.units + amount.units };
        self.total = Amount { units: self.total.units + amount.units };
    }

    /// Moves `amount` from the available funds to the held funds.
    pub fn dispute(&mut self, amount: Amount)
        requires
            old(self).wf(),
            amount.wf(),
            old(self).dispute_fits(amount),
        ensures
            *final(self) == old(self).after_dispute(amount),
            final(self).wf(),
    {
        self.available = Amount { units: self.available.units - amount.units };
        self.held = Amount { units: self.held.units + amount.units };
    }

    /// Moves `amount` from the held funds back to the available funds.
    pub fn resolve(&mut self, amount: Amount)
        requires
            old(self).wf(),
            amount.wf(),
            old(self).resolve_fits(amount),
        ensures
            *final(self) == old(self).after_resolve(amount),
            final(self).wf(),
    {
        self.held = Amount { units: self.held.units - amount.units };
        self.available = Amount { units: self.available.units + amount.units };
    }

    /// Takes `amount` from the available funds and the total when the
    /// available funds cover it; otherwise changes nothing.
    pub fn withdraw(&mut self, amount: Amount) -> (r: Result<(), AccountingError>)
        requires
            old(self).wf(),
            amount.wf(),
            old(self).available.units >= amount.units ==> old(self).withdraw_fits(amount),
        ensures
            old(self).available.units >= amount.units ==> r is Ok && *final(self)
                == old(self).after_withdraw(amount),
            old(self).available.units < amount.units ==> r == Err::<(), AccountingError>(
                AccountingError::InsufficientFunds,
            ) && *final(self) == *old(self),
            final(self).wf(),
    {
        if self.available.units >= amount.units {
            self.available = Amount { units: self.available.units - amount.units };
            self.total = Amount { units: self.total.units - amount.units };
            Ok(())
        } else {
            Err(AccountingError::InsufficientFunds)
        }
    }

    /// Removes `amount` from the held funds and the total, and locks the
    /// account for good.
    pub fn chargeback(&mut self, amount: Amount)
        requires
            old(self).wf(),
            amount.wf(),
            old(self).chargeback_fits(amount),
        ensures
            *final(self) == old(self).after_chargeback(amount),
            final(self).wf(),
            final(self).locked,
    {
        self.held = Amount { units: self.held.units - amount.units };
        self.total = Amount { units: self.total.units - amount.units };
        self.locked = true;
    }
}

impl Default for Account {
    fn default() -> (r: Account)
        ensures
            r == Account::fresh(),
    {
        Account::new()
    }
}

} // verus!
