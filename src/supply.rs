//! Outstanding shares as the sum of what positions hold.

use vstd::prelude::*;
use crate::market::{MarketId, MarketSide};
use crate::position::Position;

verus! {

/// What position `p` adds to the outstanding count of `side` of `market_id`.
pub open spec fn contribution(p: Position, market_id: MarketId, side: MarketSide) -> int {
    if p.market_id == market_id && p.side == side {
        p.shares as int
    } else {
        0
    }
}

/// The shares of `side` of `market_id` that `positions` hold together.
pub open spec fn held(positions: Seq<Position>, market_id: MarketId, side: MarketSide) -> int
    decreases positions.len(),
{
    if positions.len() == 0 {
        0
    } else {
        held(positions.drop_last(), market_id, side) + contribution(positions.last(), market_id, side)
    }
}

pub(crate) proof fn lemma_held_update(ps: Seq<Position>, k: int, p: Position, market_id: MarketId, side: MarketSide)
    requires
        0 <= k < ps.len(),
    ensures
        held(ps.update(k, p), market_id, side) == held(ps, market_id, side) - contribution(
            ps[k],
            market_id,
            side,
        ) + contribution(p, market_id, side),
    decreases ps.len(),
{
    if k == ps.len() - 1 {
        assert(ps.update(k, p).drop_last() =~= ps.drop_last());
    } else {
        lemma_held_update(ps.drop_last(), k, p, market_id, side);
        assert(ps.update(k, p).drop_last() =~= ps.drop_last().update(k, p));
    }
}

pub(crate) proof fn lemma_held_push(ps: Seq<Position>, p: Position, market_id: MarketId, side: MarketSide)
    ensures
        held(ps.push(p), market_id, side) == held(ps, market_id, side) + contribution(p, market_id, side),
{
    assert(ps.push(p).drop_last() =~= ps);
}

/// No position on a market means nothing held of it.
pub(crate) proof fn lemma_held_none(ps: Seq<Position>, market_id: MarketId, side: MarketSide)
    requires
        forall|i: int| 0 <= i < ps.len() ==> (#[trigger] ps[i]).market_id != market_id,
    ensures
        held(ps, market_id, side) == 0,
    decreases ps.len(),
{
    if ps.len() > 0 {
        assert forall|i: int| 0 <= i < ps.drop_last().len() implies (#[trigger] ps.drop_last()[i]).market_id
            != market_id by {
            assert(ps.drop_last()[i] == ps[i]);
        }
        lemma_held_none(ps.drop_last(), market_id, side);
    }
}

/// One position holds no more than all positions together.
pub(crate) proof fn lemma_held_covers(ps: Seq<Position>, k: int, market_id: MarketId, side: MarketSide)
    requires
        0 <= k < ps.len(),
    ensures
        0 <= contribution(ps[k], market_id, side) <= held(ps, market_id, side),
    decreases ps.len(),
{
    lemma_held_nonneg(ps.drop_last(), market_id, side);
    if k < ps.len() - 1 {
        lemma_held_covers(ps.drop_last(), k, market_id, side);
        assert(ps.drop_last()[k] == ps[k]);
    }
}

pub(crate) proof fn lemma_held_nonneg(ps: Seq<Position>, market_id: MarketId, side: MarketSide)
    ensures
        held(ps, market_id, side) >= 0,
    decreases ps.len(),
{
    if ps.len() > 0 {
        lemma_held_nonneg(ps.drop_last(), market_id, side);
    }
}

} // verus!
