use market::exchange::STARTING_BALANCE;
use market::forms::FormError;
use market::{CreateMarketForm, Exchange, MarketError, MarketSide, UNIT};

const DAY: i64 = 86_400_000;

fn lmsr_cost(q_yes: u64, q_no: u64, b: u64) -> f64 {
    let b = b as f64 / UNIT as f64;
    let a = q_yes as f64 / UNIT as f64 / b;
    let c = q_no as f64 / UNIT as f64 / b;
    let m = a.max(c);
    b * (m + ((a - m).exp() + (c - m).exp()).ln())
}

fn implied_yes(q_yes: u64, q_no: u64, b: u64) -> u64 {
    let b = b as f64 / UNIT as f64;
    let a = q_yes as f64 / UNIT as f64 / b;
    let c = q_no as f64 / UNIT as f64 / b;
    (UNIT as f64 / (1.0 + (c - a).exp())).round() as u64
}

/// Buys through the store with prices evaluated on the market's current state.
fn buy(e: &mut Exchange, market_id: i64, user_id: i64, shares: u64, side: MarketSide, now: i64) -> Result<u64, MarketError> {
    let m = e.market(market_id).unwrap();
    let (qy, qn, b) = (m.q_yes, m.q_no, m.liquidity_param);
    let (ay, an) = match side {
        MarketSide::Yes => (qy + shares, qn),
        MarketSide::No => (qy, qn + shares),
    };
    let diff = ((lmsr_cost(ay, an, b) - lmsr_cost(qy, qn, b)) * UNIT as f64).round() as i128;
    let before = e.user(user_id).map(|u| u.balance).unwrap_or(0);
    e.execute_buy(market_id, user_id, shares, side, diff, implied_yes(ay, an, b), now)?;
    Ok(before - e.user(user_id).unwrap().balance)
}

fn sell(e: &mut Exchange, market_id: i64, user_id: i64, shares: u64, side: MarketSide, now: i64) -> Result<u64, MarketError> {
    let m = e.market(market_id).unwrap();
    let (qy, qn, b) = (m.q_yes, m.q_no, m.liquidity_param);
    let (ay, an) = match side {
        MarketSide::Yes => (qy.saturating_sub(shares), qn),
        MarketSide::No => (qy, qn.saturating_sub(shares)),
    };
    let diff = ((lmsr_cost(qy, qn, b) - lmsr_cost(ay, an, b)) * UNIT as f64).round() as i128;
    let before = e.user(user_id).map(|u| u.balance).unwrap_or(0);
    e.execute_sell(market_id, user_id, shares, side, diff, implied_yes(ay, an, b), now)?;
    Ok(e.user(user_id).unwrap().balance - before)
}

fn setup() -> Exchange {
    let mut e = Exchange::new();
    assert_eq!(e.create_user("alice".to_string(), "h1".to_string(), 0), Ok(1));
    assert_eq!(e.create_user("bob".to_string(), "h2".to_string(), 0), Ok(2));
    assert_eq!(e.create_market("Rain?".to_string(), None, 1, None, 10 * DAY, 100 * UNIT, 0), Ok(1));
    e
}

#[test]
fn buy_twice_then_sell_all_returns_the_cost() {
    let mut e = setup();
    let c1 = buy(&mut e, 1, 1, 10 * UNIT, MarketSide::Yes, 1).unwrap();
    assert!(e.latest_snapshot(1).unwrap().yes_probability > UNIT / 2);
    let c2 = buy(&mut e, 1, 1, 10 * UNIT, MarketSide::Yes, 2).unwrap();
    assert!(c2 > c1);
    let p = e.position(1, 1, MarketSide::Yes).unwrap();
    assert_eq!(p.shares, 20 * UNIT);
    let proceeds = sell(&mut e, 1, 1, 20 * UNIT, MarketSide::Yes, 3).unwrap();
    assert!((proceeds as i64 - (c1 + c2) as i64).abs() <= 2);
    let p = e.position(1, 1, MarketSide::Yes).unwrap();
    assert_eq!(p.shares, 0);
    assert!(e.holdings(1).is_empty());
    assert!(e.positions_of_market(1).is_empty());
    assert_eq!(e.market(1).unwrap().q_yes, 0);
}

#[test]
fn buy_applies_every_change() {
    let mut e = setup();
    let p = e.execute_buy(1, 1, 10 * UNIT, MarketSide::No, 5_124_947, 475_021, 7).unwrap();
    assert_eq!(p.shares, 10 * UNIT);
    assert_eq!(p.avg_price, 512_494);
    assert_eq!(p.side, MarketSide::No);
    assert_eq!(p.created_at, 7);
    assert_eq!(e.user(1).unwrap().balance, STARTING_BALANCE - 5_124_947);
    assert_eq!(e.market(1).unwrap().q_no, 10 * UNIT);
    assert_eq!(e.market(1).unwrap().q_yes, 0);
    let h = e.price_history(1, None);
    assert_eq!(h.len(), 1);
    assert_eq!(h[0].yes_probability, 475_021);
    assert_eq!(h[0].no_probability, UNIT - 475_021);
    assert_eq!(h[0].q_no, 10 * UNIT);
    assert_eq!(h[0].created_at, 7);
}

#[test]
fn failed_buys_change_nothing() {
    let mut e = setup();
    assert_eq!(e.execute_buy(9, 1, UNIT, MarketSide::Yes, 1, 1, 0), Err(MarketError::MarketNotFound));
    assert_eq!(e.execute_buy(1, 1, 0, MarketSide::Yes, 0, 1, 0), Err(MarketError::InvalidAmount));
    assert_eq!(e.execute_buy(1, 1, UNIT, MarketSide::Yes, -5, 1, 0), Err(MarketError::ComputationError));
    assert_eq!(e.execute_buy(1, 1, UNIT, MarketSide::Yes, 5, UNIT + 1, 0), Err(MarketError::ComputationError));
    assert_eq!(e.execute_buy(1, 3, UNIT, MarketSide::Yes, 5, 1, 0), Err(MarketError::UserNotFound));
    assert_eq!(
        e.execute_buy(1, 1, 2 * STARTING_BALANCE, MarketSide::Yes, 2 * STARTING_BALANCE as i128, 1, 0),
        Err(MarketError::InsufficientBalance)
    );
    assert_eq!(e.execute_buy(1, 1, UNIT, MarketSide::Yes, 5, 1, 11 * DAY), Err(MarketError::MarketClosed));
    assert_eq!(e.user(1).unwrap().balance, STARTING_BALANCE);
    assert_eq!(e.market(1).unwrap().q_yes, 0);
    assert!(e.price_history(1, None).is_empty());
    assert!(e.position(1, 1, MarketSide::Yes).is_none());
}

#[test]
fn failed_sells_change_nothing() {
    let mut e = setup();
    buy(&mut e, 1, 1, 5 * UNIT, MarketSide::Yes, 1).unwrap();
    let balance = e.user(1).unwrap().balance;
    assert_eq!(e.execute_sell(1, 2, UNIT, MarketSide::Yes, 1, 1, 2), Err(MarketError::PositionNotFound));
    assert_eq!(e.execute_sell(1, 1, 6 * UNIT, MarketSide::Yes, 1, 1, 2), Err(MarketError::InsufficientShares));
    assert_eq!(e.execute_sell(1, 1, 0, MarketSide::Yes, 0, 1, 2), Err(MarketError::InvalidAmount));
    assert_eq!(e.execute_sell(2, 1, UNIT, MarketSide::Yes, 1, 1, 2), Err(MarketError::MarketNotFound));
    assert_eq!(e.user(1).unwrap().balance, balance);
    assert_eq!(e.market(1).unwrap().q_yes, 5 * UNIT);
    assert_eq!(e.price_history(1, None).len(), 1);
}

#[test]
fn serial_buys_on_one_side_accumulate() {
    let mut e = setup();
    buy(&mut e, 1, 1, 3 * UNIT, MarketSide::Yes, 1).unwrap();
    buy(&mut e, 1, 2, 4 * UNIT, MarketSide::Yes, 1).unwrap();
    assert_eq!(e.market(1).unwrap().q_yes, 7 * UNIT);
    assert_eq!(e.market(1).unwrap().q_no, 0);
}

#[test]
fn resolution_pays_winners_one_unit_per_share() {
    let mut e = setup();
    buy(&mut e, 1, 1, 10 * UNIT, MarketSide::Yes, 1).unwrap();
    buy(&mut e, 1, 2, 4 * UNIT, MarketSide::No, 1).unwrap();
    let alice = e.user(1).unwrap().balance;
    let bob = e.user(2).unwrap().balance;
    assert_eq!(e.resolve_market(1, true, 2, 11 * DAY).err(), Some(MarketError::Unauthorized));
    assert_eq!(e.resolve_market(1, true, 1, 5 * DAY).err(), Some(MarketError::Unauthorized));
    let report = e.resolve_market(1, true, 1, 11 * DAY).unwrap();
    assert_eq!(report.paid.len(), 1);
    assert_eq!(report.paid[0].user_id, 1);
    assert_eq!(report.paid[0].amount, 10 * UNIT);
    assert!(report.failures.is_empty());
    assert_eq!(e.user(1).unwrap().balance, alice + 10 * UNIT);
    assert_eq!(e.user(2).unwrap().balance, bob);
    assert_eq!(e.position(2, 1, MarketSide::No).unwrap().shares, 4 * UNIT);
    assert!(e.market(1).unwrap().resolved);
    assert_eq!(e.market(1).unwrap().outcome, Some(true));
    assert_eq!(e.resolve_market(1, false, 1, 12 * DAY).err(), Some(MarketError::AlreadyResolved));
    let mut m = e.market(1).unwrap().clone();
    assert_eq!(m.resolve(false, 12 * DAY), Err(MarketError::AlreadyResolved));
    assert_eq!(e.resolve_market(5, true, 1, 12 * DAY).err(), Some(MarketError::MarketNotFound));
}

#[test]
fn settlement_reports_credits_that_cannot_be_made() {
    let mut e = setup();
    buy(&mut e, 1, 2, 2 * UNIT, MarketSide::No, 1).unwrap();
    e.users[1].balance = u64::MAX - UNIT;
    let report = e.resolve_market(1, false, 1, 11 * DAY).unwrap();
    assert!(report.paid.is_empty());
    assert_eq!(report.failures.len(), 1);
    assert_eq!(report.failures[0].user_id, 2);
    assert_eq!(report.failures[0].amount, 2 * UNIT);
    assert_eq!(e.user(2).unwrap().balance, u64::MAX - UNIT);
}

#[test]
fn closed_market_refuses_trades() {
    let mut e = setup();
    assert_eq!(e.close_market(1, 5), Ok(()));
    assert_eq!(e.market(1).unwrap().closed_at, Some(5));
    assert_eq!(e.close_market(1, 9), Ok(()));
    assert_eq!(e.market(1).unwrap().closed_at, Some(5));
    assert_eq!(e.execute_buy(1, 1, UNIT, MarketSide::Yes, 1, 1, 6), Err(MarketError::MarketClosed));
    assert_eq!(e.close_market(4, 9), Err(MarketError::MarketNotFound));
}

#[test]
fn price_history_is_ordered_and_repeatable() {
    let mut e = setup();
    assert_eq!(e.create_market("Snow?".to_string(), None, 2, None, 10 * DAY, 50 * UNIT, 0), Ok(2));
    for i in 0..4 {
        buy(&mut e, 1, 1, UNIT, MarketSide::Yes, 10 + i).unwrap();
        buy(&mut e, 2, 2, UNIT, MarketSide::No, 10 + i).unwrap();
    }
    let first = e.price_history(1, None);
    let second = e.price_history(1, None);
    assert_eq!(first, second);
    assert_eq!(first.len(), 4);
    assert!(first.iter().all(|s| s.market_id == 1));
    assert!(first.windows(2).all(|w| w[0].created_at <= w[1].created_at && w[0].id < w[1].id));
    let last_two = e.price_history(1, Some(2));
    assert_eq!(last_two, first[2..].to_vec());
    assert_eq!(e.price_history(1, Some(10)), first);
    assert_eq!(e.price_history(1, Some(0)), vec![]);
    assert_eq!(e.latest_snapshot(1), Some(first[3]));
    assert_eq!(e.latest_snapshot(3), None);
    assert_eq!(e.positions_of_market(2).len(), 1);
    assert_eq!(e.unresolved_markets(), vec![2, 1]);
}

#[test]
fn quote_is_read_only() {
    let e = setup();
    let q = e.quote_buy(1, 10 * UNIT, MarketSide::Yes, 5_124_947).unwrap();
    assert_eq!(q.cost, 5_124_947);
    assert_eq!(q.avg_price, 512_494);
    assert_eq!(e.quote_buy(2, UNIT, MarketSide::Yes, 1), Err(MarketError::MarketNotFound));
    assert_eq!(e.quote_buy(1, 0, MarketSide::Yes, 1), Err(MarketError::InvalidAmount));
    assert_eq!(e.market(1).unwrap().q_yes, 0);
}

#[test]
fn accounts_have_unique_usernames() {
    let mut e = setup();
    assert_eq!(e.create_user("alice".to_string(), "x".to_string(), 3), Err(MarketError::UsernameTaken));
    assert_eq!(e.find_user_by_username("bob"), Some(2));
    assert_eq!(e.find_user_by_username("carol"), None);
    assert_eq!(e.user(2).unwrap().balance, STARTING_BALANCE);
    assert_eq!(e.create_market("Q".to_string(), None, 1, None, 0, 0, 0), Err(MarketError::InvalidLiquidity));
}

#[test]
fn listing_form_names_an_oracle() {
    let mut e = setup();
    let form = CreateMarketForm {
        question: "Sun?".to_string(),
        description: String::new(),
        days_until_end: 2,
        oracle_username: Some("bob".to_string()),
    };
    assert_eq!(e.create_market_from_form(&form, 1, 1_000), Ok(2));
    let m = e.market(2).unwrap();
    assert_eq!(m.oracle_id, Some(2));
    assert_eq!(m.description, None);
    assert_eq!(m.end_date, 1_000 + 2 * DAY);
    assert_eq!(m.liquidity_param, 100 * UNIT);

    let unknown = CreateMarketForm { oracle_username: Some("zed".to_string()), ..form.clone() };
    assert_eq!(e.create_market_from_form(&unknown, 1, 1_000), Err(FormError::OracleNotFound));
    let short = CreateMarketForm { days_until_end: 0, ..form.clone() };
    assert_eq!(e.create_market_from_form(&short, 1, 1_000), Err(FormError::InvalidDuration));
    let blank = CreateMarketForm { question: String::new(), ..form.clone() };
    assert_eq!(e.create_market_from_form(&blank, 1, 1_000), Err(FormError::QuestionRequired));
    let own = CreateMarketForm { oracle_username: Some(String::new()), description: "d".to_string(), ..form };
    assert_eq!(e.create_market_from_form(&own, 1, 1_000), Ok(3));
    assert_eq!(e.market(3).unwrap().oracle_id, None);
    assert_eq!(e.market(3).unwrap().description, Some("d".to_string()));
}

#[test]
fn snapshot_times_never_go_back() {
    let mut e = setup();
    buy(&mut e, 1, 1, UNIT, MarketSide::Yes, 50).unwrap();
    buy(&mut e, 1, 1, UNIT, MarketSide::Yes, 20).unwrap();
    buy(&mut e, 1, 1, UNIT, MarketSide::Yes, 70).unwrap();
    let h = e.price_history(1, None);
    let times: Vec<i64> = h.iter().map(|s| s.created_at).collect();
    assert_eq!(times, vec![50, 50, 70]);
}
