use vstd::prelude::*;
use crate::error::MarketError;
use crate::market::{MarketId, MarketSide, UserId};
use crate::pricing::UNIT;

verus! {

pub type PositionId = i64;

/// One user's holding of one side of one market. Shares are in millionths
/// of a share; the average price is the cost basis per share in currency
/// millionths.
#[derive(Debug, Clone, Copy, PartialEq, Eq, Structural)]
pub struct Position {
    pub id: PositionId,
    pub user_id: UserId,
    pub market_id: MarketId,
    pub side: MarketSide,
    pub shares: u64,
    pub avg_price: u64,
    pub created_at: i64,
    pub updated_at: i64,
}

/// The mean price per share after adding `added` shares bought at `price`
/// to `shares` shares held at `avg`, rounded down.
pub open spec fn weighted_average(shares: int, avg: int, added: int, price: int) -> int {
    (shares * avg + added * price) / (shares + added)
}

/// A mean of prices of at most one unit is at most one unit.
proof fn lemma_average_bounded(shares: int, avg: int, added: int, price: int)
    requires
        0 <= shares,
        0 < added,
        0 <= avg <= UNIT,
        0 <= price <= UNIT,
    ensures
        0 <= weighted_average(shares, avg, added, price) <= UNIT,
        shares * avg + added * price <= (shares + added) * UNIT,
{
    vstd::arithmetic::mul::lemma_mul_inequality(avg, UNIT as int, shares);
    vstd::arithmetic::mul::lemma_mul_inequality(price, UNIT as int, added);
    assert(shares * avg + added * price <= (shares + added) * UNIT) by (nonlinear_arith)
        requires
            avg * shares <= UNIT * shares,
            price * added <= UNIT * added,
    ;
    assert(0 <= shares * avg + added * price) by (nonlinear_arith)
        requires
            0 <= shares,
            0 < added,
            0 <= avg,
            0 <= price,
    ;
    vstd::arithmetic::div_mod::lemma_div_is_ordered(
        shares * avg + added * price,
        (shares + added) * UNIT,
        shares + added,
    );
    vstd::arithmetic::div_mod::lemma_div_multiples_vanish(UNIT as int, shares + added);
    vstd::arithmetic::div_mod::lemma_div_is_ordered(0, shares * avg + added * price, shares + added);
}

impl Position {
    /// The invariant of a stored position: its cost basis lies in `[0, 1]`.
    pub open spec fn wf(&self) -> bool {
        self.avg_price <= UNIT
    }

    /// The position after `add_shares(added, price, now)` with `added > 0`.
    pub open spec fn with_added(self, added: u64, price: u64, now: i64) -> Position {
        Position {
            shares: (self.shares + added) as u64,
            avg_price: weighted_average(
                self.shares as int,
                self.avg_price as int,
                added as int,
                price as int,
            ) as u64,
            updated_at: now,
            ..self
        }
    }

    /// The position after `remove_shares(removed, now)` succeeds.
    pub open spec fn with_removed(self, removed: u64, now: i64) -> Position {
        Position { shares: (self.shares - removed) as u64, updated_at: now, ..self }
    }

    pub fn new(
        id: PositionId,
        user_id: UserId,
        market_id: MarketId,
        side: MarketSide,
        shares: u64,
        avg_price: u64,
        created_at: i64,
        updated_at: i64,
    ) -> (p: Position)
        ensures
            p == (Position {
                id,
                user_id,
                market_id,
                side,
                shares,
                avg_price,
                created_at,
                updated_at,
            }),
    {
        Position { id, user_id, market_id, side, shares, avg_price, created_at, updated_at }
    }

    /// Adds `new_shares` shares bought at `price` each at time `now`, and
    /// moves the average price to the weighted mean of old and new. Adding
    /// no shares changes nothing.
    pub fn add_shares(&mut self, new_shares: u64, price: u64, now: i64)
        requires
            old(self).wf(),
            price <= UNIT,
            old(self).shares + new_shares <= u64::MAX,
        ensures
            new_shares == 0 ==> *final(self) == *old(self),
            new_shares > 0 ==> *final(self) == old(self).with_added(new_shares, price, now),
            final(self).wf(),
    {
        if new_shares == 0 {
            return;
        }
        proof {
            lemma_average_bounded(
                self.shares as int,
                self.avg_price as int,
                new_shares as int,
                price as int,
            );
        }
        let total_cost: u128 = self.shares as u128 * self.avg_price as u128 + new_shares as u128
            * price as u128;
        let total_shares: u64 = self.shares + new_shares;
        self.shares = total_shares;
        self.avg_price = (total_cost / total_shares as u128) as u64;
        self.updated_at = now;
    }

    /// Removes `shares_to_remove` shares at time `now`; the average price is
    /// kept. Fails with `InsufficientShares`, changing nothing, when fewer
    /// are held.
    pub fn remove_shares(&mut self, shares_to_remove: u64, now: i64) -> (r: Result<(), MarketError>)
        ensures
            shares_to_remove > old(self).shares ==> r == Err::<(), MarketError>(
                MarketError::InsufficientShares,
            ) && *final(self) == *old(self),
            shares_to_remove <= old(self).shares ==> r is Ok && *final(self) == old(
                self,
            ).with_removed(shares_to_remove, now),
    {
        if shares_to_remove > self.shares {
            return Err(MarketError::InsufficientShares);
        }
        self.shares = self.shares - shares_to_remove;
        self.updated_at = now;
        Ok(())
    }

    /// The position's worth at `current_price` per share, in currency
    /// millionths, rounded down.
    pub fn value_at_price(&self, current_price: u64) -> (r: u128)
        ensures
            r == (self.shares * current_price) / (UNIT as int),
    {
        proof {
            vstd::arithmetic::mul::lemma_mul_inequality(
                self.shares as int,
                u64::MAX as int,
                current_price as int,
            );
            vstd::arithmetic::mul::lemma_mul_inequality(
                current_price as int,
                u64::MAX as int,
                u64::MAX as int,
            );
        }
        (self.shares as u128 * current_price as u128) / (UNIT as u128)
    }

    /// The gain at `current_price` over the cost basis, in currency
    /// millionths, rounded toward zero.
    pub fn profit_loss(&self, current_price: u64) -> (r: i128)
        ensures
            current_price >= self.avg_price ==> r == (self.shares * (current_price
                - self.avg_price)) / (UNIT as int),
            current_price < self.avg_price ==> r == -((self.shares * (self.avg_price
                - current_price)) / (UNIT as int)),
    {
        let diff: u64 = if current_price >= self.avg_price {
            current_price - self.avg_price
        } else {
            self.avg_price - current_price
        };
        proof {
            vstd::arithmetic::mul::lemma_mul_inequality(self.shares as int, u64::MAX as int, diff as int);
            vstd::arithmetic::mul::lemma_mul_inequality(diff as int, u64::MAX as int, u64::MAX as int);
            vstd::arithmetic::div_mod::lemma_div_is_ordered(
                self.shares * diff,
                (u64::MAX as int) * (u64::MAX as int),
                UNIT as int,
            );
            assert(((u64::MAX as int) * (u64::MAX as int)) / (UNIT as int) < i128::MAX);
        }
        let magnitude: u128 = (self.shares as u128 * diff as u128) / (UNIT as u128);
        if current_price >= self.avg_price {
            magnitude as i128
        } else {
            -(magnitude as i128)
        }
    }

    /// What the position pays if its side wins: one unit per share.
    pub fn payout_if_wins(&self) -> (r: u64)
        ensures
            r == self.shares,
    {
        self.shares
    }
}

} // verus!
