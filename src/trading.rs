//! Buying and selling shares: the trade protocol of the market engine.

use vstd::prelude::*;
use crate::error::MarketError;
use crate::exchange::Exchange;
use crate::market::{Market, MarketId, MarketSide, MarketStatus, UserId};
use crate::position::Position;
use crate::pricing::{buy_cost_spec, sell_proceeds_spec, LmsrPricing, UNIT};
use crate::snapshot::PriceSnapshot;
use crate::supply::{held, lemma_held_push, lemma_held_update};

verus! {

/// The market with `shares` more outstanding on `side`.
pub open spec fn market_bought(m: Market, side: MarketSide, shares: u64) -> Market {
    match side {
        MarketSide::Yes => Market { q_yes: (m.q_yes + shares) as u64, ..m },
        MarketSide::No => Market { q_no: (m.q_no + shares) as u64, ..m },
    }
}

/// The market with `shares` fewer outstanding on `side`.
pub open spec fn market_sold(m: Market, side: MarketSide, shares: u64) -> Market {
    match side {
        MarketSide::Yes => Market { q_yes: (m.q_yes - shares) as u64, ..m },
        MarketSide::No => Market { q_no: (m.q_no - shares) as u64, ..m },
    }
}

/// The snapshot appended after a trade leaves `m` as it is.
pub open spec fn snapshot_of(id: int, m: Market, yes_probability: u64, now: i64) -> PriceSnapshot {
    PriceSnapshot {
        id: id as i64,
        market_id: m.id,
        yes_probability,
        no_probability: (UNIT - yes_probability) as u64,
        q_yes: m.q_yes,
        q_no: m.q_no,
        created_at: now,
    }
}

/// The time stamped on a snapshot appended at `now`: never earlier than the
/// latest snapshot, so the history stays ordered by time.
pub open spec fn stamp_after(snapshots: Seq<PriceSnapshot>, now: i64) -> i64 {
    if snapshots.len() > 0 && snapshots.last().created_at > now {
        snapshots.last().created_at
    } else {
        now
    }
}

/// The empty holding that a first purchase creates.
pub open spec fn fresh_position(
    id: int,
    user_id: UserId,
    market_id: MarketId,
    side: MarketSide,
    now: i64,
) -> Position {
    Position {
        id: id as i64,
        user_id,
        market_id,
        side,
        shares: 0,
        avg_price: 0,
        created_at: now,
        updated_at: now,
    }
}

/// The price per share paid when `cost` buys `shares` shares, rounded down.
pub open spec fn price_per_share(cost: u64, shares: u64) -> u64 {
    ((cost * UNIT) / (shares as int)) as u64
}

/// What a purchase would cost, and the price per share it comes to, in
/// currency millionths.
#[derive(Debug, Clone, Copy, PartialEq, Eq, Structural)]
pub struct BuyQuote {
    pub cost: u64,
    pub avg_price: u64,
}

/// A cost of at most one unit per share comes to a price of at most one unit.
proof fn lemma_price_fits(cost: u64, shares: u64)
    requires
        0 < shares,
        cost <= shares,
    ensures
        (cost as int) * (UNIT as int) <= u128::MAX,
        price_per_share(cost, shares) == (cost * UNIT) / (shares as int),
        (cost * UNIT) / (shares as int) <= UNIT,
{
    vstd::arithmetic::mul::lemma_mul_inequality(cost as int, shares as int, UNIT as int);
    vstd::arithmetic::mul::lemma_mul_inequality(shares as int, u64::MAX as int, UNIT as int);
    vstd::arithmetic::div_mod::lemma_div_is_ordered(cost * UNIT, shares * UNIT, shares as int);
    vstd::arithmetic::div_mod::lemma_div_multiples_vanish(UNIT as int, shares as int);
    assert(shares * UNIT == (shares as int) * (UNIT as int));
    vstd::arithmetic::div_mod::lemma_div_is_ordered(0, cost * UNIT, shares as int);
}

impl Exchange {
    /// The time to stamp on a snapshot appended at `now`.
    fn next_stamp(&self, now: i64) -> (r: i64)
        ensures
            r == stamp_after(self.snapshots@, now),
    {
        let n = self.snapshots.len();
        if n > 0 && self.snapshots[n - 1].created_at > now {
            self.snapshots[n - 1].created_at
        } else {
            now
        }
    }

    /// The first refusal the buy protocol meets, if any: an unknown market,
    /// a market not open, no shares, a pricing failure, an unknown user, a
    /// balance short of the cost, or a holding that cannot grow by `shares`.
    pub open spec fn buy_failure(
        &self,
        market_id: MarketId,
        user_id: UserId,
        shares: u64,
        side: MarketSide,
        cost_difference: i128,
        yes_probability: u64,
        now: i64,
    ) -> Option<MarketError> {
        let m = self.market_at(market_id);
        let priced = buy_cost_spec(m.q_yes, m.q_no, shares, side, m.liquidity_param, cost_difference);
        if !self.has_market(market_id) {
            Some(MarketError::MarketNotFound)
        } else if m.status_spec(now) != MarketStatus::Active {
            Some(MarketError::MarketClosed)
        } else if shares == 0 {
            Some(MarketError::InvalidAmount)
        } else if priced is Err {
            Some(priced->Err_0)
        } else if yes_probability > UNIT {
            Some(MarketError::ComputationError)
        } else if !self.has_user(user_id) {
            Some(MarketError::UserNotFound)
        } else if self.user_at(user_id).balance < priced->Ok_0 {
            Some(MarketError::InsufficientBalance)
        } else if self.holds(user_id, market_id, side) && self.holding(user_id, market_id, side).shares
            + shares > u64::MAX {
            Some(MarketError::ComputationError)
        } else {
            None
        }
    }

    /// How a purchase that `buy_failure` lets through changes the store:
    /// the buyer pays `cost`, the side's outstanding count grows by `shares`,
    /// a snapshot at `yes_probability` is appended, and the buyer's holding
    /// (created empty if absent) gains `shares` at the price paid per share.
    pub open spec fn buy_applied(
        pre: Exchange,
        post: Exchange,
        market_id: MarketId,
        user_id: UserId,
        shares: u64,
        side: MarketSide,
        cost: u64,
        yes_probability: u64,
        now: i64,
    ) -> bool {
        let m = market_bought(pre.market_at(market_id), side, shares);
        let u = pre.user_at(user_id);
        let price = price_per_share(cost, shares);
        &&& post.users@ == pre.users@.update(user_id - 1, u.with_balance(u.balance - cost))
        &&& post.markets@ == pre.markets@.update(market_id - 1, m)
        &&& post.snapshots@ == pre.snapshots@.push(
            snapshot_of(pre.snapshots@.len() + 1int, m, yes_probability, stamp_after(pre.snapshots@, now)),
        )
        &&& if pre.holds(user_id, market_id, side) {
            post.positions@ == pre.positions@.update(
                pre.holding_index(user_id, market_id, side),
                pre.holding(user_id, market_id, side).with_added(shares, price, now),
            )
        } else {
            post.positions@ == pre.positions@.push(
                fresh_position(pre.positions@.len() + 1int, user_id, market_id, side, now).with_added(
                    shares,
                    price,
                    now,
                ),
            )
        }
    }

    /// Buys `shares` shares of `side` of market `market_id` for `user_id` at
    /// time `now`, as one step that applies every change or none.
    ///
    /// `cost_difference` is `C(after) - C(before)` of the LMSR cost function
    /// and `yes_probability` the implied YES probability after the trade,
    /// both evaluated by the caller on the market's current state. Returns
    /// the buyer's position after the trade.
    pub fn execute_buy(
        &mut self,
        market_id: MarketId,
        user_id: UserId,
        shares: u64,
        side: MarketSide,
        cost_difference: i128,
        yes_probability: u64,
        now: i64,
    ) -> (r: Result<Position, MarketError>)
        requires
            old(self).wf(),
            old(self).positions@.len() < i64::MAX,
            old(self).snapshots@.len() < i64::MAX,
        ensures
            final(self).wf(),
            match r {
                Err(e) => {
                    &&& old(self).buy_failure(
                        market_id,
                        user_id,
                        shares,
                        side,
                        cost_difference,
                        yes_probability,
                        now,
                    ) == Some(e)
                    &&& *final(self) == *old(self)
                },
                Ok(p) => {
                    &&& old(self).buy_failure(
                        market_id,
                        user_id,
                        shares,
                        side,
                        cost_difference,
                        yes_probability,
                        now,
                    ) is None
                    &&& Exchange::buy_applied(
                        *old(self),
                        *final(self),
                        market_id,
                        user_id,
                        shares,
                        side,
                        cost_difference as u64,
                        yes_probability,
                        now,
                    )
                    &&& final(self).holds(user_id, market_id, side)
                    &&& p == final(self).holding(user_id, market_id, side)
                },
            },
    {
        let mi = match self.market_index(market_id) {
            Some(i) => i,
            None => return Err(MarketError::MarketNotFound),
        };
        if !self.markets[mi].can_trade(now) {
            return Err(MarketError::MarketClosed);
        }
        if shares == 0 {
            return Err(MarketError::InvalidAmount);
        }
        let cost = match LmsrPricing::calculate_buy_cost(
            self.markets[mi].q_yes,
            self.markets[mi].q_no,
            shares,
            side,
            self.markets[mi].liquidity_param,
            cost_difference,
        ) {
            Ok(c) => c,
            Err(e) => return Err(e),
        };
        if yes_probability > UNIT {
            return Err(MarketError::ComputationError);
        }
        let ui = match self.user_index(user_id) {
            Some(i) => i,
            None => return Err(MarketError::UserNotFound),
        };
        if !self.users[ui].can_afford(cost) {
            return Err(MarketError::InsufficientBalance);
        }
        let found = self.find_position(user_id, market_id, side);
        if let Some(pi) = found {
            if self.positions[pi].shares > u64::MAX - shares {
                return Err(MarketError::ComputationError);
            }
        }
        let ghost pre = *self;
        proof {
            lemma_price_fits(cost, shares);
        }
        let price: u64 = ((cost as u128 * UNIT as u128) / shares as u128) as u64;

        // the buyer pays
        self.users[ui].balance = self.users[ui].balance - cost;

        // the side's outstanding count grows
        match side {
            MarketSide::Yes => {
                self.markets[mi].q_yes = self.markets[mi].q_yes + shares;
            },
            MarketSide::No => {
                self.markets[mi].q_no = self.markets[mi].q_no + shares;
            },
        }

        // the new price is recorded
        let snapshot = PriceSnapshot::new(
            self.snapshots.len() as i64 + 1,
            market_id,
            yes_probability,
            UNIT - yes_probability,
            self.markets[mi].q_yes,
            self.markets[mi].q_no,
            self.next_stamp(now),
        );
        self.snapshots.push(snapshot);

        // the buyer's holding grows
        let pi = match found {
            Some(pi) => pi,
            None => {
                let fresh = Position::new(
                    self.positions.len() as i64 + 1,
                    user_id,
                    market_id,
                    side,
                    0,
                    0,
                    now,
                    now,
                );
                self.positions.push(fresh);
                self.positions.len() - 1
            },
        };
        self.positions[pi].add_shares(shares, price, now);
        proof {
            assert(self.users@ =~= pre.users@.update(
                user_id - 1,
                pre.user_at(user_id).with_balance(pre.user_at(user_id).balance - cost),
            ));
            assert(self.markets@ =~= pre.markets@.update(
                market_id - 1,
                market_bought(pre.market_at(market_id), side, shares),
            ));
            if found is None {
                assert(self.positions@ =~= pre.positions@.push(
                    fresh_position(pre.positions@.len() + 1int, user_id, market_id, side, now).with_added(
                        shares,
                        price,
                        now,
                    ),
                ));
            }
            assert forall|i: int| 0 <= i < self.markets@.len() implies (#[trigger] self.markets@[i]).q_yes
                == held(self.positions@, self.markets@[i].id, MarketSide::Yes) && self.markets@[i].q_no
                == held(self.positions@, self.markets@[i].id, MarketSide::No) by {
                let id = self.markets@[i].id;
                let p = self.positions@[pi as int];
                if found is None {
                    lemma_held_push(pre.positions@, p, id, MarketSide::Yes);
                    lemma_held_push(pre.positions@, p, id, MarketSide::No);
                } else {
                    lemma_held_update(pre.positions@, pi as int, p, id, MarketSide::Yes);
                    lemma_held_update(pre.positions@, pi as int, p, id, MarketSide::No);
                }
                assert(pre.markets@[i].id == id);
            }
            self.lemma_holding_at(pi as int);
        }
        Ok(self.positions[pi])
    }

    /// The first refusal the sell protocol meets, if any: an unknown market,
    /// a market not open, no shares, no holding, a holding short of
    /// `shares`, a pricing failure, an unknown user, or a balance that
    /// cannot take the proceeds.
    pub open spec fn sell_failure(
        &self,
        market_id: MarketId,
        user_id: UserId,
        shares: u64,
        side: MarketSide,
        proceeds_difference: i128,
        yes_probability: u64,
        now: i64,
    ) -> Option<MarketError> {
        let m = self.market_at(market_id);
        let priced = sell_proceeds_spec(
            m.q_yes,
            m.q_no,
            shares,
            side,
            m.liquidity_param,
            proceeds_difference,
        );
        if !self.has_market(market_id) {
            Some(MarketError::MarketNotFound)
        } else if m.status_spec(now) != MarketStatus::Active {
            Some(MarketError::MarketClosed)
        } else if shares == 0 {
            Some(MarketError::InvalidAmount)
        } else if !self.holds(user_id, market_id, side) {
            Some(MarketError::PositionNotFound)
        } else if self.holding(user_id, market_id, side).shares < shares {
            Some(MarketError::InsufficientShares)
        } else if priced is Err {
            Some(priced->Err_0)
        } else if yes_probability > UNIT {
            Some(MarketError::ComputationError)
        } else if !self.has_user(user_id) {
            Some(MarketError::UserNotFound)
        } else if self.user_at(user_id).balance + priced->Ok_0 > u64::MAX {
            Some(MarketError::ComputationError)
        } else {
            None
        }
    }

    /// How a sale that `sell_failure` lets through changes the store: the
    /// seller receives `proceeds`, the side's outstanding count shrinks by
    /// `shares`, a snapshot at `yes_probability` is appended, and the
    /// seller's holding loses `shares` with its average price kept.
    pub open spec fn sell_applied(
        pre: Exchange,
        post: Exchange,
        market_id: MarketId,
        user_id: UserId,
        shares: u64,
        side: MarketSide,
        proceeds: u64,
        yes_probability: u64,
        now: i64,
    ) -> bool {
        let m = market_sold(pre.market_at(market_id), side, shares);
        let u = pre.user_at(user_id);
        &&& post.users@ == pre.users@.update(user_id - 1, u.with_balance(u.balance + proceeds))
        &&& post.markets@ == pre.markets@.update(market_id - 1, m)
        &&& post.snapshots@ == pre.snapshots@.push(
            snapshot_of(pre.snapshots@.len() + 1int, m, yes_probability, stamp_after(pre.snapshots@, now)),
        )
        &&& post.positions@ == pre.positions@.update(
            pre.holding_index(user_id, market_id, side),
            pre.holding(user_id, market_id, side).with_removed(shares, now),
        )
    }

    /// Sells `shares` shares of `side` of market `market_id` held by
    /// `user_id` at time `now`, as one step that applies every change or
    /// none. A holding sold down to zero is kept.
    ///
    /// `proceeds_difference` is `C(before) - C(after)` of the LMSR cost
    /// function and `yes_probability` the implied YES probability after the
    /// trade, both evaluated by the caller on the market's current state.
    /// Returns the seller's position after the trade.
    pub fn execute_sell(
        &mut self,
        market_id: MarketId,
        user_id: UserId,
        shares: u64,
        side: MarketSide,
        proceeds_difference: i128,
        yes_probability: u64,
        now: i64,
    ) -> (r: Result<Position, MarketError>)
        requires
            old(self).wf(),
            old(self).snapshots@.len() < i64::MAX,
        ensures
            final(self).wf(),
            match r {
                Err(e) => {
                    &&& old(self).sell_failure(
                        market_id,
                        user_id,
                        shares,
                        side,
                        proceeds_difference,
                        yes_probability,
                        now,
                    ) == Some(e)
                    &&& *final(self) == *old(self)
                },
                Ok(p) => {
                    &&& old(self).sell_failure(
                        market_id,
                        user_id,
                        shares,
                        side,
                        proceeds_difference,
                        yes_probability,
                        now,
                    ) is None
                    &&& Exchange::sell_applied(
                        *old(self),
                        *final(self),
                        market_id,
                        user_id,
                        shares,
                        side,
                        proceeds_difference as u64,
                        yes_probability,
                        now,
                    )
                    &&& final(self).holds(user_id, market_id, side)
                    &&& p == final(self).holding(user_id, market_id, side)
                },
            },
    {
        let mi = match self.market_index(market_id) {
            Some(i) => i,
            None => return Err(MarketError::MarketNotFound),
        };
        if !self.markets[mi].can_trade(now) {
            return Err(MarketError::MarketClosed);
        }
        if shares == 0 {
            return Err(MarketError::InvalidAmount);
        }
        let pi = match self.find_position(user_id, market_id, side) {
            Some(i) => i,
            None => return Err(MarketError::PositionNotFound),
        };
        if self.positions[pi].shares < shares {
            return Err(MarketError::InsufficientShares);
        }
        let proceeds = match LmsrPricing::calculate_sell_proceeds(
            self.markets[mi].q_yes,
            self.markets[mi].q_no,
            shares,
            side,
            self.markets[mi].liquidity_param,
            proceeds_difference,
        ) {
            Ok(c) => c,
            Err(e) => return Err(e),
        };
        if yes_probability > UNIT {
            return Err(MarketError::ComputationError);
        }
        let ui = match self.user_index(user_id) {
            Some(i) => i,
            None => return Err(MarketError::UserNotFound),
        };
        if self.users[ui].balance > u64::MAX - proceeds {
            return Err(MarketError::ComputationError);
        }
        let ghost pre = *self;

        // the seller is paid
        self.users[ui].add_balance(proceeds);

        // the side's outstanding count shrinks
        match side {
            MarketSide::Yes => {
                self.markets[mi].q_yes = self.markets[mi].q_yes - shares;
            },
            MarketSide::No => {
                self.markets[mi].q_no = self.markets[mi].q_no - shares;
            },
        }

        // the new price is recorded
        let snapshot = PriceSnapshot::new(
            self.snapshots.len() as i64 + 1,
            market_id,
            yes_probability,
            UNIT - yes_probability,
            self.markets[mi].q_yes,
            self.markets[mi].q_no,
            self.next_stamp(now),
        );
        self.snapshots.push(snapshot);

        // the seller's holding shrinks
        let removed = self.positions[pi].remove_shares(shares, now);
        proof {
            assert(self.users@ =~= pre.users@.update(
                user_id - 1,
                pre.user_at(user_id).with_balance(pre.user_at(user_id).balance + proceeds),
            ));
            assert(self.markets@ =~= pre.markets@.update(
                market_id - 1,
                market_sold(pre.market_at(market_id), side, shares),
            ));
            assert forall|i: int| 0 <= i < self.markets@.len() implies (#[trigger] self.markets@[i]).q_yes
                == held(self.positions@, self.markets@[i].id, MarketSide::Yes) && self.markets@[i].q_no
                == held(self.positions@, self.markets@[i].id, MarketSide::No) by {
                let id = self.markets@[i].id;
                let p = self.positions@[pi as int];
                lemma_held_update(pre.positions@, pi as int, p, id, MarketSide::Yes);
                lemma_held_update(pre.positions@, pi as int, p, id, MarketSide::No);
                assert(pre.markets@[i].id == id);
            }
            self.lemma_holding_at(pi as int);
        }
        Ok(self.positions[pi])
    }

    /// The price of buying `shares` shares of `side` of market `market_id`,
    /// where `cost_difference` is `C(after) - C(before)` evaluated by the
    /// caller. Changes nothing.
    pub fn quote_buy(
        &self,
        market_id: MarketId,
        shares: u64,
        side: MarketSide,
        cost_difference: i128,
    ) -> (r: Result<BuyQuote, MarketError>)
        ensures
            !self.has_market(market_id) ==> r == Err::<BuyQuote, MarketError>(
                MarketError::MarketNotFound,
            ),
            self.has_market(market_id) ==> {
                let m = self.market_at(market_id);
                let priced = buy_cost_spec(
                    m.q_yes,
                    m.q_no,
                    shares,
                    side,
                    m.liquidity_param,
                    cost_difference,
                );
                match priced {
                    Err(e) => r == Err::<BuyQuote, MarketError>(e),
                    Ok(cost) => r == Ok::<BuyQuote, MarketError>(
                        BuyQuote { cost, avg_price: price_per_share(cost, shares) },
                    ),
                }
            },
    {
        let mi = match self.market_index(market_id) {
            Some(i) => i,
            None => return Err(MarketError::MarketNotFound),
        };
        let cost = match LmsrPricing::calculate_buy_cost(
            self.markets[mi].q_yes,
            self.markets[mi].q_no,
            shares,
            side,
            self.markets[mi].liquidity_param,
            cost_difference,
        ) {
            Ok(c) => c,
            Err(e) => return Err(e),
        };
        proof {
            lemma_price_fits(cost, shares);
        }
        let avg_price = ((cost as u128 * UNIT as u128) / shares as u128) as u64;
        Ok(BuyQuote { cost, avg_price })
    }
}

} // verus!
