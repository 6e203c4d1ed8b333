//! The ledger: one balance for each user that was ever referred to.

use crate::text::same_text;
use vstd::hash_map::StringHashMap;
use vstd::prelude::*;
use vstd::string::*;

verus! {

/// Why the ledger turned a posting down. Either way no balance has changed.
#[derive(Clone, Copy, Debug, PartialEq, Eq, Structural)]
pub enum LedgerError {
    /// The amount is larger than the balance it would be taken from.
    InsufficientFunds { balance: i64 },
    /// A balance would leave the range of numbers that the ledger holds.
    OutOfRange { balance: i64 },
}

/// The balance of `user`: what the ledger holds for them, and zero for a
/// user that it has no entry for.
pub open spec fn balance_of(ledger: Map<Seq<char>, i64>, user: Seq<char>) -> int {
    if ledger.contains_key(user) {
        ledger[user] as int
    } else {
        0
    }
}

/// The ledger after `user` was referred to: an entry with balance zero is
/// made for a user that had none.
pub open spec fn opened(ledger: Map<Seq<char>, i64>, user: Seq<char>) -> Map<Seq<char>, i64> {
    if ledger.contains_key(user) {
        ledger
    } else {
        ledger.insert(user, 0)
    }
}

/// Whether a balance is one that the ledger can hold.
pub open spec fn in_range(balance: int) -> bool {
    i64::MIN <= balance <= i64::MAX
}

/// The ledger and the result of depositing `amount` for `user`.
pub open spec fn deposited(ledger: Map<Seq<char>, i64>, user: Seq<char>, amount: int) -> (
    Map<Seq<char>, i64>,
    Result<i64, LedgerError>,
) {
    let balance = balance_of(ledger, user);
    if in_range(balance + amount) {
        (ledger.insert(user, (balance + amount) as i64), Ok((balance + amount) as i64))
    } else {
        (opened(ledger, user), Err(LedgerError::OutOfRange { balance: balance as i64 }))
    }
}

/// The ledger and the result of withdrawing `amount` for `user`.
pub open spec fn withdrawn(ledger: Map<Seq<char>, i64>, user: Seq<char>, amount: int) -> (
    Map<Seq<char>, i64>,
    Result<i64, LedgerError>,
) {
    let balance = balance_of(ledger, user);
    if balance < amount {
        (opened(ledger, user), Err(LedgerError::InsufficientFunds { balance: balance as i64 }))
    } else if in_range(balance - amount) {
        (ledger.insert(user, (balance - amount) as i64), Ok((balance - amount) as i64))
    } else {
        (opened(ledger, user), Err(LedgerError::OutOfRange { balance: balance as i64 }))
    }
}

/// The ledger and the result of transferring `amount` from `from` to `to`.
/// The sender is debited first and the recipient credited after that, so a
/// transfer to oneself leaves the balance as it was. The result is the
/// sender's balance after the transfer.
pub open spec fn transferred(
    ledger: Map<Seq<char>, i64>,
    from: Seq<char>,
    amount: int,
    to: Seq<char>,
) -> (Map<Seq<char>, i64>, Result<i64, LedgerError>) {
    let balance = balance_of(ledger, from);
    let debited = ledger.insert(from, (balance - amount) as i64);
    let credit = balance_of(debited, to) + amount;
    if balance < amount {
        (opened(ledger, from), Err(LedgerError::InsufficientFunds { balance: balance as i64 }))
    } else if in_range(balance - amount) && in_range(credit) {
        let after = debited.insert(to, credit as i64);
        (after, Ok(after[from]))
    } else {
        (opened(ledger, from), Err(LedgerError::OutOfRange { balance: balance as i64 }))
    }
}

/// The balances of all users, keyed by user name.
pub struct Ledger {
    balances: StringHashMap<i64>,
}

impl View for Ledger {
    type V = Map<Seq<char>, i64>;

    closed spec fn view(&self) -> Map<Seq<char>, i64> {
        self.balances@
    }
}

impl Ledger {
    /// A ledger without entries.
    pub fn new() -> (ledger: Ledger)
        ensures
            ledger@ == Map::<Seq<char>, i64>::empty(),
    {
        Ledger { balances: StringHashMap::new() }
    }

    /// The balance that the ledger holds for `user`, if it has an entry for
    /// them.
    pub fn balance(&self, user: &str) -> (balance: Option<i64>)
        ensures
            balance == (if self@.contains_key(user@) {
                Some(self@[user@])
            } else {
                None
            }),
    {
        match self.balances.get(user) {
            Some(balance) => Some(*balance),
            None => None,
        }
    }

    /// The balance of `user`, after making an entry with balance zero if
    /// there was none.
    pub fn get_or_create_balance(&mut self, user: &str) -> (balance: i64)
        ensures
            final(self)@ == opened(old(self)@, user@),
            balance == balance_of(old(self)@, user@),
    {
        match self.balance(user) {
            Some(balance) => balance,
            None => {
                self.balances.insert(String::from_str(user), 0);
                0
            },
        }
    }

    /// Adds `amount` to the balance of `user` and returns the new balance.
    pub fn deposit(&mut self, user: &str, amount: i64) -> (result: Result<i64, LedgerError>)
        ensures
            (final(self)@, result) == deposited(old(self)@, user@, amount as int),
    {
        let balance = self.get_or_create_balance(user);
        match balance.checked_add(amount) {
            Some(sum) => {
                self.balances.insert(String::from_str(user), sum);
                proof {
                    assert(self@ =~= old(self)@.insert(user@, sum));
                }
                Ok(sum)
            },
            None => Err(LedgerError::OutOfRange { balance }),
        }
    }

    /// Takes `amount` from the balance of `user`, unless the balance is
    /// smaller than that, and returns the new balance.
    pub fn withdraw(&mut self, user: &str, amount: i64) -> (result: Result<i64, LedgerError>)
        ensures
            (final(self)@, result) == withdrawn(old(self)@, user@, amount as int),
    {
        let balance = self.get_or_create_balance(user);
        if balance < amount {
            return Err(LedgerError::InsufficientFunds { balance });
        }
        match balance.checked_sub(amount) {
            Some(rest) => {
                self.balances.insert(String::from_str(user), rest);
                proof {
                    assert(self@ =~= old(self)@.insert(user@, rest));
                }
                Ok(rest)
            },
            None => Err(LedgerError::OutOfRange { balance }),
        }
    }

    /// Moves `amount` from the balance of `from` to that of `to`, unless the
    /// sender's balance is smaller than that, and returns the sender's new
    /// balance.
    pub fn transfer(&mut self, from: &str, amount: i64, to: &str) -> (result: Result<
        i64,
        LedgerError,
    >)
        ensures
            (final(self)@, result) == transferred(old(self)@, from@, amount as int, to@),
    {
        let balance = self.get_or_create_balance(from);
        if balance < amount {
            return Err(LedgerError::InsufficientFunds { balance });
        }
        let rest = match balance.checked_sub(amount) {
            Some(rest) => rest,
            None => {
                return Err(LedgerError::OutOfRange { balance });
            },
        };
        let same = same_text(from, to);
        let held = if same {
            rest
        } else {
            match self.balance(to) {
                Some(held) => held,
                None => 0,
            }
        };
        let sum = match held.checked_add(amount) {
            Some(sum) => sum,
            None => {
                return Err(LedgerError::OutOfRange { balance });
            },
        };
        self.balances.insert(String::from_str(from), rest);
        self.balances.insert(String::from_str(to), sum);
        proof {
            let debited = old(self)@.insert(from@, rest);
            assert(balance_of(debited, to@) == held);
            assert(self@ =~= debited.insert(to@, sum));
        }
        Ok(if same {
            sum
        } else {
            rest
        })
    }
}

} // verus!
