use crate::amount::Amount;
use vstd::prelude::*;

verus! {

/// The retained record of a deposit or withdrawal, kept so that it can be
/// disputed later.
#[derive(Clone, Copy, Debug, PartialEq, Eq, Structural)]
pub struct Transaction {
    pub client: u16,
    pub amount: Amount,
    pub disputed: bool,
}

impl Transaction {
    pub fn new(client: u16, amount: Amount, disputed: bool) -> (r: Transaction)
        ensures
            r == (Transaction { client, amount, disputed }),
    {
        Transaction { client, amount, disputed }
    }

    pub fn disputed(&self) -> (r: bool)
        ensures
            r == self.disputed,
    {
        self.disputed
    }

    /// Marks the entry as under dispute.
    pub fn set_disputed(&mut self)
        ensures
            *final(self) == (Transaction { disputed: true, ..*old(self) }),
    {
        self.disputed = true
    }

    /// Clears the dispute mark.
    pub fn resolved(&mut self)
        ensures
            *final(self) == (Transaction { disputed: false, ..*old(self) }),
    {
        self.disputed = false
    }
}

} // verus!
