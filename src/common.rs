use crate::amount::Amount;
use vstd::prelude::*;
use vstd::string::*;

verus! {

/// The kind of an incoming event.
#[derive(Clone, Copy, Debug, PartialEq, Eq, Structural)]
pub enum TransactionKind {
    Deposit,
    Withdrawal,
    Dispute,
    Resolve,
    Chargeback,
}

/// An ASCII letter in lower case; any other character as it is.
pub open spec fn ascii_lower(c: char) -> char {
    if 'A' <= c && c <= 'Z' {
        (((c as u8) + 32) as u8) as char
    } else {
        c
    }
}

/// Whether `s` spells `word`, ignoring the case of ASCII letters.
pub open spec fn spells(s: Seq<char>, word: Seq<char>) -> bool {
    s.len() == word.len() && forall|i: int| 0 <= i < s.len() ==> ascii_lower(#[trigger] s[i]) == word[i]
}

/// The kind that a keyword names, in any mix of cases.
pub open spec fn kind_of_keyword(s: Seq<char>) -> Option<TransactionKind> {
    if spells(s, seq!['d', 'e', 'p', 'o', 's', 'i', 't']) {
        Some(TransactionKind::Deposit)
    } else if spells(s, seq!['w', 'i', 't', 'h', 'd', 'r', 'a', 'w', 'a', 'l']) {
        Some(TransactionKind::Withdrawal)
    } else if spells(s, seq!['d', 'i', 's', 'p', 'u', 't', 'e']) {
        Some(TransactionKind::Dispute)
    } else if spells(s, seq!['r', 'e', 's', 'o', 'l', 'v', 'e']) {
        Some(TransactionKind::Resolve)
    } else if spells(s, seq!['c', 'h', 'a', 'r', 'g', 'e', 'b', 'a', 'c', 'k']) {
        Some(TransactionKind::Chargeback)
    } else {
        None
    }
}

fn lower_char(c: char) -> (r: char)
    ensures
        r == ascii_lower(c),
{
    if 'A' <= c && c <= 'Z' {
        ((c as u8) + 32) as char
    } else {
        c
    }
}

fn spells_word(s: &str, word: &Vec<char>) -> (r: bool)
    ensures
        r == spells(s@, word@),
{
    let n = s.unicode_len();
    if n != word.len() {
        return false;
    }
    let mut i: usize = 0;
    while i < n
        invariant
            n == s@.len(),
            n == word@.len(),
            0 <= i <= n,
            forall|j: int| 0 <= j < i ==> ascii_lower(#[trigger] s@[j]) == word@[j],
        decreases n - i,
    {
        if lower_char(s.get_char(i)) != word[i] {
            return false;
        }
        i += 1;
    }
    true
}

impl TransactionKind {
    /// The kind that a record's type field names: `deposit`, `withdrawal`,
    /// `dispute`, `resolve` or `chargeback`, in any mix of cases.
    pub fn from_keyword(s: &str) -> (r: Option<TransactionKind>)
        ensures
            r == kind_of_keyword(s@),
    {
        let deposit = vec!['d', 'e', 'p', 'o', 's', 'i', 't'];
        let withdrawal = vec!['w', 'i', 't', 'h', 'd', 'r', 'a', 'w', 'a', 'l'];
        let dispute = vec!['d', 'i', 's', 'p', 'u', 't', 'e'];
        let resolve = vec!['r', 'e', 's', 'o', 'l', 'v', 'e'];
        let chargeback = vec!['c', 'h', 'a', 'r', 'g', 'e', 'b', 'a', 'c', 'k'];
        assert(deposit@ == seq!['d', 'e', 'p', 'o', 's', 'i', 't']);
        assert(withdrawal@ == seq!['w', 'i', 't', 'h', 'd', 'r', 'a', 'w', 'a', 'l']);
        assert(dispute@ == seq!['d', 'i', 's', 'p', 'u', 't', 'e']);
        assert(resolve@ == seq!['r', 'e', 's', 'o', 'l', 'v', 'e']);
        assert(chargeback@ == seq!['c', 'h', 'a', 'r', 'g', 'e', 'b', 'a', 'c', 'k']);
        if spells_word(s, &deposit) {
            Some(TransactionKind::Deposit)
        } else if spells_word(s, &withdrawal) {
            Some(TransactionKind::Withdrawal)
        } else if spells_word(s, &dispute) {
            Some(TransactionKind::Dispute)
        } else if spells_word(s, &resolve) {
            Some(TransactionKind::Resolve)
        } else if spells_word(s, &chargeback) {
            Some(TransactionKind::Chargeback)
        } else {
            None
        }
    }
}

/// One incoming event. The amount matters only for deposits and
/// withdrawals; where it is missing it counts as zero.
#[derive(Clone, Copy, Debug, PartialEq, Eq, Structural)]
pub struct InputData {
    pub kind: TransactionKind,
    pub client: u16,
    pub tx: u32,
    pub amount: Option<Amount>,
}

impl InputData {
    /// The amount is in range where there is one.
    pub open spec fn wf(self) -> bool {
        self.amount matches Some(a) ==> a.wf()
    }

    pub open spec fn amount_or_zero(self) -> Amount {
        match self.amount {
            Some(a) => a,
            None => Amount::spec_zero(),
        }
    }

    pub fn new(kind: TransactionKind, client: u16, tx: u32, amount: Option<Amount>) -> (r: Self)
        ensures
            r == (InputData { kind, client, tx, amount }),
    {
        InputData { kind, client, tx, amount }
    }

    pub fn amount(&self) -> (r: Amount)
        ensures
            r == self.amount_or_zero(),
    {
        match self.amount {
            Some(a) => a,
            None => Amount::zero(),
        }
    }

    pub fn deposit(client: u16, tx: u32, amount: Amount) -> (r: InputData)
        ensures
            r == (InputData { kind: TransactionKind::Deposit, client, tx, amount: Some(amount) }),
    {
        InputData { kind: TransactionKind::Deposit, client, tx, amount: Some(amount) }
    }

    pub fn withdrawal(client: u16, tx: u32, amount: Amount) -> (r: InputData)
        ensures
            r == (InputData { kind: TransactionKind::Withdrawal, client, tx, amount: Some(amount) }),
    {
        InputData { kind: TransactionKind::Withdrawal, client, tx, amount: Some(amount) }
    }

    pub fn dispute(client: u16, tx: u32) -> (r: InputData)
        ensures
            r == (InputData { kind: TransactionKind::Dispute, client, tx, amount: None }),
    {
        InputData { kind: TransactionKind::Dispute, client, tx, amount: None }
    }

    pub fn resolve(client: u16, tx: u32) -> (r: InputData)
        ensures
            r == (InputData { kind: TransactionKind::Resolve, client, tx, amount: None }),
    {
        InputData { kind: TransactionKind::Resolve, client, tx, amount: None }
    }

    pub fn chargeback(client: u16, tx: u32) -> (r: InputData)
        ensures
            r == (InputData { kind: TransactionKind::Chargeback, client, tx, amount: None }),
    {
        InputData { kind: TransactionKind::Chargeback, client, tx, amount: None }
    }
}

} // verus!
