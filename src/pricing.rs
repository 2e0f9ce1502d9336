use vstd::prelude::*;
use crate::error::MarketError;
use crate::market::MarketSide;

verus! {

/// One share, one unit of currency, and a probability of one, in the
/// fixed-point scale that every amount of the library uses.
pub const UNIT: u64 = 1_000_000;

/// The logarithmic market scoring rule, `C(q) = b * ln(e^(q_yes/b) + e^(q_no/b))`.
///
/// The cost levels themselves are transcendental and are evaluated by the
/// caller; this type decides, from the market state and the evaluated
/// difference of cost levels, whether a trade is priced and at what amount.
pub struct LmsrPricing;

/// The outstanding count of one side.
pub open spec fn outstanding(q_yes: u64, q_no: u64, side: MarketSide) -> u64 {
    match side {
        MarketSide::Yes => q_yes,
        MarketSide::No => q_no,
    }
}

/// Whether an evaluated cost difference can be the price of `shares` shares:
/// each share pays at most one unit, so a trade is worth between nothing and
/// its share count.
pub open spec fn is_share_price(shares: u64, amount: i128) -> bool {
    0 <= amount <= shares
}

/// The outcome of pricing a purchase, given the evaluated difference
/// `C(after) - C(before)`.
pub open spec fn buy_cost_spec(
    q_yes: u64,
    q_no: u64,
    shares: u64,
    side: MarketSide,
    b: u64,
    cost_difference: i128,
) -> Result<u64, MarketError> {
    if shares == 0 {
        Err(MarketError::InvalidAmount)
    } else if b == 0 {
        Err(MarketError::InvalidLiquidity)
    } else if outstanding(q_yes, q_no, side) + shares > u64::MAX {
        Err(MarketError::ComputationError)
    } else if !is_share_price(shares, cost_difference) {
        Err(MarketError::ComputationError)
    } else {
        Ok(cost_difference as u64)
    }
}

/// The outcome of pricing a sale, given the evaluated difference
/// `C(before) - C(after)`.
pub open spec fn sell_proceeds_spec(
    q_yes: u64,
    q_no: u64,
    shares: u64,
    side: MarketSide,
    b: u64,
    proceeds_difference: i128,
) -> Result<u64, MarketError> {
    if shares == 0 {
        Err(MarketError::InvalidAmount)
    } else if b == 0 {
        Err(MarketError::InvalidLiquidity)
    } else if shares > outstanding(q_yes, q_no, side) {
        Err(MarketError::InsufficientSupply)
    } else if !is_share_price(shares, proceeds_difference) {
        Err(MarketError::ComputationError)
    } else {
        Ok(proceeds_difference as u64)
    }
}

/// The marginal price of one more share of `side`, given the implied
/// probability of YES.
pub open spec fn price_of_side(yes_probability: u64, side: MarketSide) -> int {
    match side {
        MarketSide::Yes => yes_probability as int,
        MarketSide::No => UNIT - yes_probability,
    }
}

impl LmsrPricing {
    /// The cost of buying `shares` shares of `side` in a market with
    /// outstanding counts `q_yes`, `q_no` and liquidity `b`, where
    /// `cost_difference` is `C(after) - C(before)` evaluated in currency
    /// millionths. Fails with `InvalidAmount` for no shares, with
    /// `InvalidLiquidity` for a zero `b`, and with `ComputationError` when
    /// the new outstanding count does not fit or the difference lies outside
    /// `[0, shares]`.
    pub fn calculate_buy_cost(
        q_yes: u64,
        q_no: u64,
        shares: u64,
        side: MarketSide,
        b: u64,
        cost_difference: i128,
    ) -> (r: Result<u64, MarketError>)
        ensures
            r == buy_cost_spec(q_yes, q_no, shares, side, b, cost_difference),
    {
        if shares == 0 {
            return Err(MarketError::InvalidAmount);
        }
        if b == 0 {
            return Err(MarketError::InvalidLiquidity);
        }
        let current = match side {
            MarketSide::Yes => q_yes,
            MarketSide::No => q_no,
        };
        if current > u64::MAX - shares {
            return Err(MarketError::ComputationError);
        }
        if cost_difference < 0 || cost_difference > shares as i128 {
            return Err(MarketError::ComputationError);
        }
        Ok(cost_difference as u64)
    }

    /// The proceeds of selling `shares` shares of `side`, where
    /// `proceeds_difference` is `C(before) - C(after)` evaluated in currency
    /// millionths. Fails with `InvalidAmount` for no shares, with
    /// `InvalidLiquidity` for a zero `b`, with `InsufficientSupply` when the
    /// side has fewer outstanding shares than that, and with
    /// `ComputationError` when the difference lies outside `[0, shares]`.
    pub fn calculate_sell_proceeds(
        q_yes: u64,
        q_no: u64,
        shares: u64,
        side: MarketSide,
        b: u64,
        proceeds_difference: i128,
    ) -> (r: Result<u64, MarketError>)
        ensures
            r == sell_proceeds_spec(q_yes, q_no, shares, side, b, proceeds_difference),
    {
        if shares == 0 {
            return Err(MarketError::InvalidAmount);
        }
        if b == 0 {
            return Err(MarketError::InvalidLiquidity);
        }
        let current = match side {
            MarketSide::Yes => q_yes,
            MarketSide::No => q_no,
        };
        if shares > current {
            return Err(MarketError::InsufficientSupply);
        }
        if proceeds_difference < 0 || proceeds_difference > shares as i128 {
            return Err(MarketError::ComputationError);
        }
        Ok(proceeds_difference as u64)
    }

    /// The marginal price of `side`: the implied probability for YES, its
    /// complement for NO.
    pub fn instantaneous_price(yes_probability: u64, side: MarketSide) -> (r: u64)
        requires
            yes_probability <= UNIT,
        ensures
            r == price_of_side(yes_probability, side),
    {
        match side {
            MarketSide::Yes => yes_probability,
            MarketSide::No => UNIT - yes_probability,
        }
    }
}

/// The marginal prices of the two sides add up to one.
pub proof fn lemma_side_prices_sum_to_one(yes_probability: u64)
    requires
        yes_probability <= UNIT,
    ensures
        price_of_side(yes_probability, MarketSide::Yes) + price_of_side(
            yes_probability,
            MarketSide::No,
        ) == UNIT,
{
}

/// The constant-product pricing of older markets: the product of the two
/// pools stays fixed across a trade.
pub struct AmmPricing;

/// `k / d` rounded up.
pub open spec fn ceil_div(k: int, d: int) -> int {
    k / d + if k % d == 0 { 0int } else { 1int }
}

/// The outcome of buying from the pools: the bought side's pool shrinks by
/// `shares`, and the other grows to keep the product, rounded up.
pub open spec fn amm_buy_spec(yes_pool: u64, no_pool: u64, shares: u64, side: MarketSide) -> Result<
    u64,
    MarketError,
> {
    let (mine, other) = match side {
        MarketSide::Yes => (yes_pool, no_pool),
        MarketSide::No => (no_pool, yes_pool),
    };
    if shares == 0 {
        Err(MarketError::InvalidAmount)
    } else if yes_pool == 0 || no_pool == 0 {
        Err(MarketError::InvalidLiquidity)
    } else if shares >= mine {
        Err(MarketError::InsufficientSupply)
    } else {
        let cost = ceil_div(mine * other, mine - shares) - other;
        if cost > u64::MAX {
            Err(MarketError::ComputationError)
        } else {
            Ok(cost as u64)
        }
    }
}

/// The outcome of selling into the pools: the sold side's pool grows by
/// `shares`, and the other shrinks to keep the product, rounded up.
pub open spec fn amm_sell_spec(yes_pool: u64, no_pool: u64, shares: u64, side: MarketSide) -> Result<
    u64,
    MarketError,
> {
    let (mine, other) = match side {
        MarketSide::Yes => (yes_pool, no_pool),
        MarketSide::No => (no_pool, yes_pool),
    };
    if shares == 0 {
        Err(MarketError::InvalidAmount)
    } else if yes_pool == 0 || no_pool == 0 {
        Err(MarketError::InvalidLiquidity)
    } else {
        Ok((other - ceil_div(mine * other, mine + shares)) as u64)
    }
}

/// The implied probability of YES under constant-product pricing:
/// `no_pool / (yes_pool + no_pool)`, or one half when both pools are empty.
pub open spec fn amm_probability_spec(yes_pool: u64, no_pool: u64) -> int {
    if yes_pool + no_pool == 0 {
        (UNIT / 2) as int
    } else {
        (no_pool * UNIT) / (yes_pool + no_pool)
    }
}

/// Shrinking one pool below `mine` makes the kept product's other factor at
/// least `other`; growing it makes that factor, rounded up, at most `other`.
proof fn lemma_product_quotient(mine: int, other: int, d: int)
    requires
        0 < d,
        0 < mine,
        0 <= other,
    ensures
        d <= mine ==> (mine * other) / d >= other,
        d >= mine ==> ceil_div(mine * other, d) <= other,
{
    let k = mine * other;
    vstd::arithmetic::div_mod::lemma_div_multiples_vanish(other, d);
    vstd::arithmetic::div_mod::lemma_fundamental_div_mod(k, d);
    if d <= mine {
        vstd::arithmetic::mul::lemma_mul_inequality(d, mine, other);
        vstd::arithmetic::div_mod::lemma_div_is_ordered(d * other, k, d);
    }
    if d >= mine {
        vstd::arithmetic::mul::lemma_mul_inequality(mine, d, other);
        vstd::arithmetic::div_mod::lemma_div_is_ordered(k, d * other, d);
        if k % d != 0 {
            assert(k / d < other) by (nonlinear_arith)
                requires
                    k == d * (k / d) + (k % d),
                    k % d > 0,
                    k <= d * other,
                    d > 0,
            ;
        }
    }
}

/// The product of two pools fits a `u128` with room to round up.
proof fn lemma_product_fits(a: u64, b: u64, d: int)
    requires
        d >= 1,
    ensures
        (a as int) * (b as int) <= (u64::MAX as int) * (u64::MAX as int),
        ((a as int) * (b as int)) / d + 1 <= u128::MAX,
{
    vstd::arithmetic::mul::lemma_mul_inequality(a as int, u64::MAX as int, b as int);
    vstd::arithmetic::mul::lemma_mul_inequality(b as int, u64::MAX as int, u64::MAX as int);
    vstd::arithmetic::div_mod::lemma_div_is_ordered_by_denominator((a as int) * (b as int), 1, d);
    assert((u64::MAX as int) * (u64::MAX as int) + 1 <= u128::MAX);
}

impl AmmPricing {
    /// The cost of buying `shares` shares of `side` from pools of the given
    /// sizes. Fails with `InvalidAmount` for no shares, `InvalidLiquidity`
    /// for an empty pool, `InsufficientSupply` when the side's pool would
    /// run dry, and `ComputationError` when the cost does not fit.
    pub fn calculate_buy_cost(yes_pool: u64, no_pool: u64, shares: u64, side: MarketSide) -> (r:
        Result<u64, MarketError>)
        ensures
            r == amm_buy_spec(yes_pool, no_pool, shares, side),
    {
        if shares == 0 {
            return Err(MarketError::InvalidAmount);
        }
        if yes_pool == 0 || no_pool == 0 {
            return Err(MarketError::InvalidLiquidity);
        }
        let (mine, other) = match side {
            MarketSide::Yes => (yes_pool, no_pool),
            MarketSide::No => (no_pool, yes_pool),
        };
        if shares >= mine {
            return Err(MarketError::InsufficientSupply);
        }
        proof {
            lemma_product_fits(mine, other, (mine - shares) as int);
        }
        let k: u128 = mine as u128 * other as u128;
        let d: u128 = (mine - shares) as u128;
        proof {
            lemma_product_quotient(mine as int, other as int, d as int);
        }
        let grown: u128 = k / d + if k % d == 0 { 0 } else { 1 };
        let cost: u128 = grown - other as u128;
        if cost > u64::MAX as u128 {
            return Err(MarketError::ComputationError);
        }
        Ok(cost as u64)
    }

    /// The proceeds of selling `shares` shares of `side` into pools of the
    /// given sizes. Fails with `InvalidAmount` for no shares and
    /// `InvalidLiquidity` for an empty pool.
    pub fn calculate_sell_proceeds(yes_pool: u64, no_pool: u64, shares: u64, side: MarketSide) -> (r:
        Result<u64, MarketError>)
        ensures
            r == amm_sell_spec(yes_pool, no_pool, shares, side),
    {
        if shares == 0 {
            return Err(MarketError::InvalidAmount);
        }
        if yes_pool == 0 || no_pool == 0 {
            return Err(MarketError::InvalidLiquidity);
        }
        let (mine, other) = match side {
            MarketSide::Yes => (yes_pool, no_pool),
            MarketSide::No => (no_pool, yes_pool),
        };
        proof {
            lemma_product_fits(mine, other, mine + shares);
        }
        let k: u128 = mine as u128 * other as u128;
        let d: u128 = mine as u128 + shares as u128;
        proof {
            lemma_product_quotient(mine as int, other as int, d as int);
        }
        let shrunk: u128 = k / d + if k % d == 0 { 0 } else { 1 };
        Ok((other as u128 - shrunk) as u64)
    }

    /// The implied probability of YES, in millionths.
    pub fn implied_probability(yes_pool: u64, no_pool: u64) -> (r: u64)
        ensures
            r == amm_probability_spec(yes_pool, no_pool),
            r <= UNIT,
    {
        let total: u128 = yes_pool as u128 + no_pool as u128;
        if total == 0 {
            return UNIT / 2;
        }
        proof {
            vstd::arithmetic::mul::lemma_mul_inequality(no_pool as int, total as int, UNIT as int);
            vstd::arithmetic::div_mod::lemma_div_is_ordered(
                no_pool * UNIT,
                total * UNIT,
                total as int,
            );
            vstd::arithmetic::div_mod::lemma_div_multiples_vanish(UNIT as int, total as int);
            assert(total * UNIT == (total as int) * (UNIT as int));
        }
        ((no_pool as u128 * UNIT as u128) / total) as u64
    }

    /// The marginal price of `side`: the implied probability for YES, its
    /// complement for NO.
    pub fn current_price(yes_pool: u64, no_pool: u64, side: MarketSide) -> (r: u64)
        ensures
            r == price_of_side(amm_probability_spec(yes_pool, no_pool) as u64, side),
    {
        let p = AmmPricing::implied_probability(yes_pool, no_pool);
        match side {
            MarketSide::Yes => p,
            MarketSide::No => UNIT - p,
        }
    }
}

} // verus!
