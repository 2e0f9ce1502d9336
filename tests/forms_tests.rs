use market::{AuthSession, CreateMarketForm, FormError, MarketError, MarketSide, ResolveMarketForm, SignupForm, TradeForm};

#[test]
fn signup_form_rules() {
    let form = |u: &str, p: &str| SignupForm { username: u.to_string(), password: p.to_string() };
    assert_eq!(form("", "secret1").validate(), Err(FormError::MissingCredentials));
    assert_eq!(form("bob", "").validate(), Err(FormError::MissingCredentials));
    assert_eq!(form("bo", "secret1").validate(), Err(FormError::UsernameTooShort));
    assert_eq!(form("bob", "12345").validate(), Err(FormError::PasswordTooShort));
    assert_eq!(form("bob", "123456").validate(), Ok(()));
    assert_eq!(form("é", "123456").validate(), Err(FormError::UsernameTooShort));
    assert_eq!(form("éa", "123456").validate(), Ok(()));
}

#[test]
fn market_form_rules() {
    let form = CreateMarketForm {
        question: "Q?".to_string(),
        description: "about".to_string(),
        days_until_end: 1,
        oracle_username: None,
    };
    assert_eq!(form.validate(), Ok(()));
    assert_eq!(form.end_date(5), Ok(5 + 86_400_000));
    assert_eq!(form.description_value(), Some("about".to_string()));
    let huge = CreateMarketForm { days_until_end: i64::MAX, ..form.clone() };
    assert_eq!(huge.end_date(0), Err(FormError::InvalidDuration));
    let late = CreateMarketForm { days_until_end: 1, ..form.clone() };
    assert_eq!(late.end_date(i64::MAX - 10), Err(FormError::InvalidDuration));
    let none = CreateMarketForm { days_until_end: 0, ..form };
    assert_eq!(none.validate(), Err(FormError::InvalidDuration));
}

#[test]
fn resolve_form_outcome() {
    let form = |o: &str| ResolveMarketForm { outcome: o.to_string() };
    assert_eq!(form("yes").parse_outcome(), Ok(true));
    assert_eq!(form("no").parse_outcome(), Ok(false));
    assert_eq!(form("YES").parse_outcome(), Err(FormError::InvalidOutcome));
    assert_eq!(form("").parse_outcome(), Err(FormError::InvalidOutcome));
}

#[test]
fn trade_form_parsing() {
    let form = TradeForm { shares: 5, side: "No".to_string() };
    assert_eq!(form.parse(), Ok((5, MarketSide::No)));
    let empty = TradeForm { shares: 0, side: "yes".to_string() };
    assert_eq!(empty.parse(), Err(MarketError::InvalidAmount));
    let bad = TradeForm { shares: 1, side: "up".to_string() };
    assert_eq!(bad.parse(), Err(MarketError::InvalidSide));
}

#[test]
fn session_holds_user() {
    assert_eq!(AuthSession::new(42).user_id, 42);
}

#[test]
fn signup_stores_a_hash_that_login_accepts() {
    let mut e = market::Exchange::new();
    let form = SignupForm { username: "carol".to_string(), password: "hunter22".to_string() };
    assert_eq!(e.signup(&form, 5), Ok(1));
    let user = e.user(1).unwrap();
    assert_eq!(user.username, "carol");
    assert_ne!(user.password_hash, "hunter22");
    assert_eq!(user.balance, market::exchange::STARTING_BALANCE);
    assert_eq!(e.signup(&form, 6), Err(FormError::UsernameTaken));
    let short = SignupForm { username: "dan".to_string(), password: "123".to_string() };
    assert_eq!(e.signup(&short, 7), Err(FormError::PasswordTooShort));
    assert_eq!(e.users.len(), 1);
}

#[test]
fn login_checks_the_password() {
    let mut e = market::Exchange::new();
    let hash = bcrypt::hash("secret1", 4).unwrap();
    assert_eq!(e.create_user("erin".to_string(), hash, 0), Ok(1));
    let login = |u: &str, p: &str| market::LoginForm { username: u.to_string(), password: p.to_string() };
    assert_eq!(e.login(&login("erin", "secret1")), Ok(1));
    assert_eq!(e.login(&login("erin", "secret2")), Err(FormError::InvalidCredentials));
    assert_eq!(e.login(&login("frank", "secret1")), Err(FormError::InvalidCredentials));
}
