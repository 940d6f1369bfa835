//! The token ledger that settles payments: one balance per holder.

use crate::address::Address;
use crate::store::Table;
use crate::store::TableKey;
use vstd::prelude::*;

verus! {

/// Why an operation of the ledger failed.
#[derive(Clone, Copy, Debug, PartialEq, Eq)]
pub enum TokenError {
    /// The amount is below zero.
    NegativeAmount,
    /// The payer holds less than the amount.
    InsufficientBalance,
    /// The receiver's balance would leave the range of the ledger's integers.
    BalanceOverflow,
}

/// The balance of `id` in `balances`: zero for a holder without an entry.
pub open spec fn balance_of(balances: Map<Address, i128>, id: Address) -> i128 {
    if balances.contains_key(id) {
        balances[id]
    } else {
        0
    }
}

/// The outcome of creating `amount` new units for `to`.
pub open spec fn minted(balances: Map<Address, i128>, to: Address, amount: i128) -> (
    Map<Address, i128>,
    Result<(), TokenError>,
) {
    if amount < 0 {
        (balances, Err(TokenError::NegativeAmount))
    } else if balance_of(balances, to) + amount > i128::MAX {
        (balances, Err(TokenError::BalanceOverflow))
    } else {
        (balances.insert(to, (balance_of(balances, to) + amount) as i128), Ok(()))
    }
}

/// The outcome of moving `amount` units from `from` to `to`.  A failed
/// transfer changes nothing; a transfer to oneself leaves the balance as it
/// was.
pub open spec fn transferred(balances: Map<Address, i128>, from: Address, to: Address, amount: i128) -> (
    Map<Address, i128>,
    Result<(), TokenError>,
) {
    if amount < 0 {
        (balances, Err(TokenError::NegativeAmount))
    } else if balance_of(balances, from) < amount {
        (balances, Err(TokenError::InsufficientBalance))
    } else {
        let debited = balances.insert(from, (balance_of(balances, from) - amount) as i128);
        if balance_of(debited, to) + amount > i128::MAX {
            (balances, Err(TokenError::BalanceOverflow))
        } else {
            (debited.insert(to, (balance_of(debited, to) + amount) as i128), Ok(()))
        }
    }
}

/// A minimal fungible-token ledger.
pub struct Token {
    balances: Table<Address, i128>,
}

impl Token {
    /// The representation invariant.
    pub closed spec fn wf(&self) -> bool {
        self.balances.wf()
    }

    /// The balances on record.
    pub closed spec fn view(&self) -> Map<Address, i128> {
        self.balances@
    }

    /// A ledger on which nobody holds anything.
    pub fn new() -> (token: Self)
        ensures
            token.wf(),
            token@ == Map::<Address, i128>::empty(),
    {
        Token { balances: Table::new() }
    }

    /// Creates `amount` new units for `to`.
    pub fn mint(&mut self, to: Address, amount: i128) -> (result: Result<(), TokenError>)
        requires
            old(self).wf(),
        ensures
            final(self).wf(),
            (final(self)@, result) == minted(old(self)@, to, amount),
    {
        if amount < 0 {
            return Err(TokenError::NegativeAmount);
        }
        let current = self.balance(&to);
        if current > i128::MAX - amount {
            return Err(TokenError::BalanceOverflow);
        }
        self.balances.insert(to, current + amount);
        Ok(())
    }

    /// The balance of `id`.
    pub fn balance(&self, id: &Address) -> (amount: i128)
        requires
            self.wf(),
        ensures
            amount == balance_of(self@, *id),
    {
        match self.balances.get(id) {
            Some(amount) => amount,
            None => 0,
        }
    }

    /// Whether a transfer of `amount` units from `from` to `to` would go
    /// through, and if not, why not.  Nothing moves.
    pub fn check_transfer(&self, from: Address, to: Address, amount: i128) -> (result: Result<
        (),
        TokenError,
    >)
        requires
            self.wf(),
        ensures
            result == transferred(self@, from, to, amount).1,
    {
        if amount < 0 {
            return Err(TokenError::NegativeAmount);
        }
        let from_balance = self.balance(&from);
        if from_balance < amount {
            return Err(TokenError::InsufficientBalance);
        }
        let to_balance = if from.same(&to) {
            from_balance - amount
        } else {
            self.balance(&to)
        };
        if to_balance > i128::MAX - amount {
            return Err(TokenError::BalanceOverflow);
        }
        Ok(())
    }

    /// Moves `amount` units from `from` to `to`.
    pub fn transfer(&mut self, from: Address, to: Address, amount: i128) -> (result: Result<
        (),
        TokenError,
    >)
        requires
            old(self).wf(),
        ensures
            final(self).wf(),
            (final(self)@, result) == transferred(old(self)@, from, to, amount),
    {
        match self.check_transfer(from, to, amount) {
            Err(e) => {
                return Err(e);
            },
            Ok(_) => {},
        }
        let from_balance = self.balance(&from);
        self.balances.insert(from, from_balance - amount);
        let to_balance = self.balance(&to);
        self.balances.insert(to, to_balance + amount);
        Ok(())
    }

    /// A second ledger with the same balances.  What is done to the one
    /// leaves the other as it is.
    pub fn duplicate(&self) -> (copy: Self)
        requires
            self.wf(),
        ensures
            copy.wf(),
            copy@ == self@,
    {
        Token { balances: self.balances.duplicate() }
    }
}

} // verus!
