use vstd::prelude::*;
use crate::error::MarketError;
use crate::market::UserId;

verus! {

/// An account: identity and cash balance in currency millionths.
#[derive(Debug, Clone)]
pub struct User {
    pub id: UserId,
    pub username: String,
    pub password_hash: String,
    pub balance: u64,
    pub created_at: i64,
}

impl User {
    /// The account with its balance changed to `balance`.
    pub open spec fn with_balance(self, balance: int) -> User {
        User { balance: balance as u64, ..self }
    }

    pub fn new(
        id: UserId,
        username: String,
        password_hash: String,
        balance: u64,
        created_at: i64,
    ) -> (u: User)
        ensures
            u == (User { id, username, password_hash, balance, created_at }),
    {
        User { id, username, password_hash, balance, created_at }
    }

    pub fn can_afford(&self, amount: u64) -> (r: bool)
        ensures
            r == (self.balance >= amount),
    {
        self.balance >= amount
    }

    /// Debits `amount`; fails with `InsufficientBalance`, changing nothing,
    /// when the balance does not cover it.
    pub fn deduct_balance(&mut self, amount: u64) -> (r: Result<(), MarketError>)
        ensures
            old(self).balance < amount ==> r == Err::<(), MarketError>(
                MarketError::InsufficientBalance,
            ) && *final(self) == *old(self),
            old(self).balance >= amount ==> r is Ok && *final(self) == old(self).with_balance(
                old(self).balance - amount,
            ),
    {
        if !self.can_afford(amount) {
            return Err(MarketError::InsufficientBalance);
        }
        self.balance = self.balance - amount;
        Ok(())
    }

    /// Credits `amount`.
    pub fn add_balance(&mut self, amount: u64)
        requires
            old(self).balance + amount <= u64::MAX,
        ensures
            *final(self) == old(self).with_balance(old(self).balance + amount),
    {
        self.balance = self.balance + amount;
    }
}

} // verus!
