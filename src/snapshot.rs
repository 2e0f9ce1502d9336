use vstd::prelude::*;
use crate::market::MarketId;

verus! {

/// The market's implied probabilities (in millionths) and outstanding
/// shares at one state transition.
#[derive(Debug, Clone, Copy, PartialEq, Eq, Structural)]
pub struct PriceSnapshot {
    pub id: i64,
    pub market_id: MarketId,
    pub yes_probability: u64,
    pub no_probability: u64,
    pub q_yes: u64,
    pub q_no: u64,
    pub created_at: i64,
}

impl PriceSnapshot {
    pub fn new(
        id: i64,
        market_id: MarketId,
        yes_probability: u64,
        no_probability: u64,
        q_yes: u64,
        q_no: u64,
        created_at: i64,
    ) -> (s: PriceSnapshot)
        ensures
            s == (PriceSnapshot {
                id,
                market_id,
                yes_probability,
                no_probability,
                q_yes,
                q_no,
                created_at,
            }),
    {
        PriceSnapshot { id, market_id, yes_probability, no_probability, q_yes, q_no, created_at }
    }
}

} // verus!
