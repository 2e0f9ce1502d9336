use market::{AmmPricing, LmsrPricing, MarketError, MarketSide, UNIT};

/// The LMSR cost function in currency, evaluated with the largest exponent
/// taken out; share counts are in millionths.
fn lmsr_cost(q_yes: u64, q_no: u64, b: u64) -> f64 {
    let b = b as f64 / UNIT as f64;
    let a = q_yes as f64 / UNIT as f64 / b;
    let c = q_no as f64 / UNIT as f64 / b;
    let m = a.max(c);
    b * (m + ((a - m).exp() + (c - m).exp()).ln())
}

fn to_millionths(x: f64) -> i128 {
    (x * UNIT as f64).round() as i128
}

fn implied_yes(q_yes: u64, q_no: u64, b: u64) -> f64 {
    let b = b as f64 / UNIT as f64;
    let a = q_yes as f64 / UNIT as f64 / b;
    let c = q_no as f64 / UNIT as f64 / b;
    1.0 / (1.0 + (c - a).exp())
}

#[test]
fn test_lmsr_buy_increases_probability() {
    let b = 100_000_000;
    let q_yes = 0;
    let q_no = 0;

    let initial_prob = implied_yes(q_yes, q_no, b);

    // Buy 10 YES shares
    let diff = to_millionths(lmsr_cost(q_yes + 10_000_000, q_no, b) - lmsr_cost(q_yes, q_no, b));
    let cost = LmsrPricing::calculate_buy_cost(q_yes, q_no, 10_000_000, MarketSide::Yes, b, diff).unwrap();
    assert!(cost > 0);

    let new_q_yes = q_yes + 10_000_000;
    let new_prob = implied_yes(new_q_yes, q_no, b);

    // Probability of YES should increase
    assert!(new_prob > initial_prob);
}

#[test]
fn test_lmsr_no_liquidity_limit() {
    let b = 100_000_000;
    let q_yes = 0;
    let q_no = 0;

    // Should be able to buy large amounts (unlike CPMM)
    let diff = to_millionths(lmsr_cost(q_yes + 1_000_000_000, q_no, b) - lmsr_cost(q_yes, q_no, b));
    let cost = LmsrPricing::calculate_buy_cost(q_yes, q_no, 1_000_000_000, MarketSide::Yes, b, diff);
    assert!(cost.is_ok());
    assert!(cost.unwrap() > 0);
}

#[test]
fn test_lmsr_buy_and_sell() {
    let b = 100_000_000;
    let q_yes = 10_000_000;
    let q_no = 5_000_000;

    // Buy 10 YES shares
    let buy_diff = to_millionths(lmsr_cost(q_yes + 10_000_000, q_no, b) - lmsr_cost(q_yes, q_no, b));
    let buy_cost = LmsrPricing::calculate_buy_cost(q_yes, q_no, 10_000_000, MarketSide::Yes, b, buy_diff).unwrap();
    let new_q_yes = q_yes + 10_000_000;

    // Sell 10 YES shares
    let sell_diff = to_millionths(lmsr_cost(new_q_yes, q_no, b) - lmsr_cost(new_q_yes - 10_000_000, q_no, b));
    let sell_proceeds =
        LmsrPricing::calculate_sell_proceeds(new_q_yes, q_no, 10_000_000, MarketSide::Yes, b, sell_diff).unwrap();

    assert!((sell_proceeds as i128 - buy_cost as i128).abs() < 10_000);
    assert!(sell_proceeds > 0);
}

#[test]
fn test_lmsr_invalid_inputs() {
    let b = 100_000_000;
    // a share count that is not positive
    assert!(LmsrPricing::calculate_buy_cost(0, 0, 0, MarketSide::Yes, b, 0).is_err());
    // a liquidity parameter that is not positive
    assert!(LmsrPricing::calculate_buy_cost(0, 0, 10_000_000, MarketSide::Yes, 0, 5_000_000).is_err());
    assert_eq!(
        LmsrPricing::calculate_buy_cost(0, 0, 10_000_000, MarketSide::Yes, 0, 5_000_000),
        Err(MarketError::InvalidLiquidity)
    );
}

#[test]
fn lmsr_buy_errors_in_order() {
    assert_eq!(
        LmsrPricing::calculate_buy_cost(0, 0, 0, MarketSide::Yes, 0, 1),
        Err(MarketError::InvalidAmount)
    );
    assert_eq!(
        LmsrPricing::calculate_buy_cost(0, 0, 10, MarketSide::No, 100, -1),
        Err(MarketError::ComputationError)
    );
    assert_eq!(
        LmsrPricing::calculate_buy_cost(0, 0, 10, MarketSide::No, 100, 11),
        Err(MarketError::ComputationError)
    );
    assert_eq!(
        LmsrPricing::calculate_buy_cost(0, u64::MAX, 10, MarketSide::No, 100, 5),
        Err(MarketError::ComputationError)
    );
    assert_eq!(LmsrPricing::calculate_buy_cost(0, 0, 10, MarketSide::No, 100, 7), Ok(7));
    assert_eq!(LmsrPricing::calculate_buy_cost(0, 0, 10, MarketSide::No, 100, 10), Ok(10));
}

#[test]
fn lmsr_sell_beyond_supply_is_refused() {
    assert_eq!(
        LmsrPricing::calculate_sell_proceeds(5_000_000, 9_000_000, 6_000_000, MarketSide::Yes, 100, 3),
        Err(MarketError::InsufficientSupply)
    );
    assert_eq!(
        LmsrPricing::calculate_sell_proceeds(5_000_000, 9_000_000, 6_000_000, MarketSide::No, 100, 3),
        Ok(3)
    );
    assert_eq!(
        LmsrPricing::calculate_sell_proceeds(5_000_000, 9_000_000, 5_000_000, MarketSide::Yes, 100, -2),
        Err(MarketError::ComputationError)
    );
    assert_eq!(
        LmsrPricing::calculate_sell_proceeds(5, 9, 0, MarketSide::Yes, 100, 0),
        Err(MarketError::InvalidAmount)
    );
    assert_eq!(
        LmsrPricing::calculate_sell_proceeds(5, 9, 1, MarketSide::Yes, 0, 0),
        Err(MarketError::InvalidLiquidity)
    );
}

#[test]
fn side_prices_add_up_to_one() {
    for p in [0u64, 1, 250_000, 500_000, 999_999, UNIT] {
        let yes = LmsrPricing::instantaneous_price(p, MarketSide::Yes);
        let no = LmsrPricing::instantaneous_price(p, MarketSide::No);
        assert_eq!(yes, p);
        assert_eq!(yes + no, UNIT);
    }
}

#[test]
fn test_initial_probability() {
    // Equal pools should give 50% probability
    let prob = AmmPricing::implied_probability(100_000_000, 100_000_000);
    assert!((prob as i64 - 500_000).abs() < 1_000);
}

#[test]
fn test_buy_cost_increases_probability() {
    let yes_pool = 100_000_000;
    let no_pool = 100_000_000;
    let initial_prob = AmmPricing::implied_probability(yes_pool, no_pool);

    // Buy 10 YES shares
    let cost = AmmPricing::calculate_buy_cost(yes_pool, no_pool, 10_000_000, MarketSide::Yes).unwrap();

    let new_yes_pool = yes_pool - 10_000_000;
    let new_no_pool = no_pool + cost;
    let new_prob = AmmPricing::implied_probability(new_yes_pool, new_no_pool);

    // Probability of YES should increase
    assert!(new_prob > initial_prob);
}

#[test]
fn test_constant_product() {
    let yes_pool: u64 = 100_000_000;
    let no_pool: u64 = 100_000_000;
    let k = yes_pool as u128 * no_pool as u128;

    let cost = AmmPricing::calculate_buy_cost(yes_pool, no_pool, 10_000_000, MarketSide::Yes).unwrap();

    let new_yes_pool = yes_pool - 10_000_000;
    let new_no_pool = no_pool + cost;
    let new_k = new_yes_pool as u128 * new_no_pool as u128;

    // k should remain approximately constant: within 0.01 in currency squared
    assert!(new_k.abs_diff(k) < 10_000_000_000);
}

#[test]
fn test_buy_and_sell_roundtrip() {
    let yes_pool = 100_000_000;
    let no_pool = 100_000_000;

    // Buy 10 YES shares
    let buy_cost = AmmPricing::calculate_buy_cost(yes_pool, no_pool, 10_000_000, MarketSide::Yes).unwrap();
    let new_yes_pool = yes_pool - 10_000_000;
    let new_no_pool = no_pool + buy_cost;

    // Sell 10 YES shares
    let sell_proceeds =
        AmmPricing::calculate_sell_proceeds(new_yes_pool, new_no_pool, 10_000_000, MarketSide::Yes).unwrap();

    // You should get back approximately the same
    assert!((sell_proceeds as i64 - buy_cost as i64).abs() < 10_000);
}

#[test]
fn test_invalid_inputs() {
    assert!(AmmPricing::calculate_buy_cost(100_000_000, 100_000_000, 0, MarketSide::Yes).is_err());
    assert!(AmmPricing::calculate_buy_cost(0, 100_000_000, 10_000_000, MarketSide::Yes).is_err());
    assert!(AmmPricing::calculate_buy_cost(100_000_000, 100_000_000, 150_000_000, MarketSide::Yes).is_err());
}

#[test]
fn amm_exact_amounts() {
    assert_eq!(
        AmmPricing::calculate_buy_cost(100_000_000, 100_000_000, 10_000_000, MarketSide::Yes),
        Ok(11_111_112)
    );
    assert_eq!(
        AmmPricing::calculate_sell_proceeds(90_000_000, 111_111_112, 10_000_000, MarketSide::Yes),
        Ok(11_111_111)
    );
    assert_eq!(
        AmmPricing::calculate_buy_cost(100, 100, 100, MarketSide::No),
        Err(MarketError::InsufficientSupply)
    );
    assert_eq!(
        AmmPricing::calculate_sell_proceeds(100, 0, 1, MarketSide::No),
        Err(MarketError::InvalidLiquidity)
    );
    assert_eq!(AmmPricing::implied_probability(0, 0), 500_000);
    assert_eq!(AmmPricing::implied_probability(300, 100), 250_000);
    assert_eq!(AmmPricing::current_price(300, 100, MarketSide::No), 750_000);
}
