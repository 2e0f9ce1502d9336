//! Laws that relate several operations of the market engine.

use vstd::prelude::*;
use crate::exchange::Exchange;
use crate::history::{history_of, last_items};
use crate::supply::lemma_held_covers;
use crate::market::{MarketId, MarketSide, UserId};
use crate::pricing::{outstanding, sell_proceeds_spec};

verus! {

/// Selling more shares of a side than the market has outstanding is
/// refused with `InsufficientSupply`, whatever the evaluated proceeds, so a
/// side's outstanding count never goes below zero.
pub proof fn lemma_oversell_refused(
    q_yes: u64,
    q_no: u64,
    shares: u64,
    side: MarketSide,
    b: u64,
    proceeds_difference: i128,
)
    requires
        b > 0,
        shares > outstanding(q_yes, q_no, side),
    ensures
        sell_proceeds_spec(q_yes, q_no, shares, side, b, proceeds_difference) == Err::<
            u64,
            crate::error::MarketError,
        >(crate::error::MarketError::InsufficientSupply),
{
}

/// Every side's outstanding count is at least any one holding of it, so a
/// sale that the seller's holding covers never meets `InsufficientSupply`.
pub proof fn lemma_holding_within_supply(
    e: Exchange,
    user_id: UserId,
    market_id: MarketId,
    side: MarketSide,
)
    requires
        e.wf(),
        e.holds(user_id, market_id, side),
    ensures
        e.has_market(market_id),
        e.holding(user_id, market_id, side).shares <= outstanding(
            e.market_at(market_id).q_yes,
            e.market_at(market_id).q_no,
            side,
        ),
{
    let k = e.holding_index(user_id, market_id, side);
    lemma_held_covers(e.positions@, k, market_id, side);
    assert(e.positions@[k] == e.holding(user_id, market_id, side));
    assert(e.markets@[market_id - 1].id == market_id);
}

/// Two purchases of the same side of a market, applied one after the
/// other, raise that side's outstanding count by both amounts and leave the
/// other side as it was: no increment is lost.
pub proof fn lemma_serial_buys_accumulate(
    e0: Exchange,
    e1: Exchange,
    e2: Exchange,
    market_id: MarketId,
    side: MarketSide,
    first_user: UserId,
    first_shares: u64,
    first_cost: u64,
    first_probability: u64,
    first_time: i64,
    second_user: UserId,
    second_shares: u64,
    second_cost: u64,
    second_probability: u64,
    second_time: i64,
)
    requires
        e0.has_market(market_id),
        Exchange::buy_applied(
            e0,
            e1,
            market_id,
            first_user,
            first_shares,
            side,
            first_cost,
            first_probability,
            first_time,
        ),
        Exchange::buy_applied(
            e1,
            e2,
            market_id,
            second_user,
            second_shares,
            side,
            second_cost,
            second_probability,
            second_time,
        ),
        outstanding(e0.market_at(market_id).q_yes, e0.market_at(market_id).q_no, side)
            + first_shares + second_shares <= u64::MAX,
    ensures
        e2.has_market(market_id),
        outstanding(e2.market_at(market_id).q_yes, e2.market_at(market_id).q_no, side) == outstanding(
            e0.market_at(market_id).q_yes,
            e0.market_at(market_id).q_no,
            side,
        ) + first_shares + second_shares,
        outstanding(e2.market_at(market_id).q_yes, e2.market_at(market_id).q_no, side.opposite_spec())
            == outstanding(
            e0.market_at(market_id).q_yes,
            e0.market_at(market_id).q_no,
            side.opposite_spec(),
        ),
{
}

/// A purchase of some shares followed by the sale of as many shares of the
/// same side leaves the market's outstanding counts where they were.
pub proof fn lemma_buy_then_sell_restores_outstanding(
    e0: Exchange,
    e1: Exchange,
    e2: Exchange,
    market_id: MarketId,
    side: MarketSide,
    user_id: UserId,
    shares: u64,
    cost: u64,
    proceeds: u64,
    bought_probability: u64,
    sold_probability: u64,
    bought_at: i64,
    sold_at: i64,
)
    requires
        e0.has_market(market_id),
        outstanding(e0.market_at(market_id).q_yes, e0.market_at(market_id).q_no, side) + shares
            <= u64::MAX,
        Exchange::buy_applied(
            e0,
            e1,
            market_id,
            user_id,
            shares,
            side,
            cost,
            bought_probability,
            bought_at,
        ),
        Exchange::sell_applied(
            e1,
            e2,
            market_id,
            user_id,
            shares,
            side,
            proceeds,
            sold_probability,
            sold_at,
        ),
    ensures
        e2.has_market(market_id),
        e2.market_at(market_id).q_yes == e0.market_at(market_id).q_yes,
        e2.market_at(market_id).q_no == e0.market_at(market_id).q_no,
{
}

/// Reading the price history twice with no snapshot appended in between
/// gives the same sequence.
pub proof fn lemma_history_repeatable(
    first: Exchange,
    second: Exchange,
    market_id: MarketId,
    limit: Option<usize>,
)
    requires
        first.snapshots@ == second.snapshots@,
    ensures
        last_items(history_of(first.snapshots@, market_id), limit) == last_items(
            history_of(second.snapshots@, market_id),
            limit,
        ),
{
}

} // verus!
