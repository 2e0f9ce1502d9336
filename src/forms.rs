use vstd::prelude::*;
use vstd::utf8::encode_utf8;
use crate::error::MarketError;
use crate::market::{lower_of, side_of_word, text_is, MarketSide};

verus! {

/// Milliseconds in a day.
pub const MILLIS_PER_DAY: i64 = 86_400_000;

/// Why a submitted form was refused.
#[derive(Debug, Clone, Copy, PartialEq, Eq, Structural)]
pub enum FormError {
    /// The username or the password is empty.
    MissingCredentials,
    /// The username has fewer than three bytes.
    UsernameTooShort,
    /// The password has fewer than six bytes.
    PasswordTooShort,
    /// The market question is empty.
    QuestionRequired,
    /// The market would be open for less than a day, or past the last
    /// representable time.
    InvalidDuration,
    /// No account has the oracle's username.
    OracleNotFound,
    /// An outcome other than `yes` or `no`.
    InvalidOutcome,
    /// Another account already uses this username.
    UsernameTaken,
    /// The password could not be hashed.
    PasswordHashFailed,
    /// No account matches this username and password.
    InvalidCredentials,
}

/// A request to open an account.
#[derive(Debug, Clone)]
pub struct SignupForm {
    pub username: String,
    pub password: String,
}

/// A request to sign in.
#[derive(Debug, Clone)]
pub struct LoginForm {
    pub username: String,
    pub password: String,
}

/// A request to list a new market, open for `days_until_end` days, with an
/// optional oracle named by username.
#[derive(Debug, Clone)]
pub struct CreateMarketForm {
    pub question: String,
    pub description: String,
    pub days_until_end: i64,
    pub oracle_username: Option<String>,
}

/// A request to resolve a market: `yes` or `no`.
#[derive(Debug, Clone)]
pub struct ResolveMarketForm {
    pub outcome: String,
}

/// A request to buy or sell `shares` (in millionths of a share) of `side`.
#[derive(Debug, Clone)]
pub struct TradeForm {
    pub shares: u64,
    pub side: String,
}

/// What `SignupForm::validate` decides for a username and password.
pub open spec fn signup_check(username: Seq<char>, password: Seq<char>) -> Result<(), FormError> {
    if username.len() == 0 || password.len() == 0 {
        Err(FormError::MissingCredentials)
    } else if encode_utf8(username).len() < 3 {
        Err(FormError::UsernameTooShort)
    } else if encode_utf8(password).len() < 6 {
        Err(FormError::PasswordTooShort)
    } else {
        Ok(())
    }
}

/// The closing time of a market opened at `now` for `days` days, if it is
/// at least a day and both the span and the time are representable.
pub open spec fn end_date_spec(now: i64, days: i64) -> Result<i64, FormError> {
    if days < 1 || days * MILLIS_PER_DAY > i64::MAX || now + days * MILLIS_PER_DAY > i64::MAX {
        Err(FormError::InvalidDuration)
    } else {
        Ok((now + days * MILLIS_PER_DAY) as i64)
    }
}

/// What `ResolveMarketForm::parse_outcome` decides for a token.
pub open spec fn outcome_of_word(t: Seq<char>) -> Result<bool, FormError> {
    if t == seq!['y', 'e', 's'] {
        Ok(true)
    } else if t == seq!['n', 'o'] {
        Ok(false)
    } else {
        Err(FormError::InvalidOutcome)
    }
}

impl SignupForm {
    /// Checks that both fields are given, the username has at least three
    /// bytes and the password at least six.
    pub fn validate(&self) -> (r: Result<(), FormError>)
        ensures
            r == signup_check(self.username@, self.password@),
    {
        let username = self.username.as_str();
        let password = self.password.as_str();
        if username.is_empty() || password.is_empty() {
            return Err(FormError::MissingCredentials);
        }
        if username.as_bytes().len() < 3 {
            return Err(FormError::UsernameTooShort);
        }
        if password.as_bytes().len() < 6 {
            return Err(FormError::PasswordTooShort);
        }
        Ok(())
    }
}

impl CreateMarketForm {
    /// Checks that the question is given and the market stays open at least
    /// a day.
    pub fn validate(&self) -> (r: Result<(), FormError>)
        ensures
            r == if self.question@.len() == 0 {
                Err::<(), FormError>(FormError::QuestionRequired)
            } else if self.days_until_end < 1 {
                Err::<(), FormError>(FormError::InvalidDuration)
            } else {
                Ok::<(), FormError>(())
            },
    {
        if self.question.as_str().is_empty() {
            return Err(FormError::QuestionRequired);
        }
        if self.days_until_end < 1 {
            return Err(FormError::InvalidDuration);
        }
        Ok(())
    }

    /// The market's closing time when it is listed at `now`.
    pub fn end_date(&self, now: i64) -> (r: Result<i64, FormError>)
        ensures
            r == end_date_spec(now, self.days_until_end),
    {
        let days = self.days_until_end;
        if days < 1 {
            return Err(FormError::InvalidDuration);
        }
        if days > i64::MAX / MILLIS_PER_DAY {
            proof {
                assert(days * MILLIS_PER_DAY > i64::MAX) by (nonlinear_arith)
                    requires
                        days > i64::MAX / MILLIS_PER_DAY,
                        MILLIS_PER_DAY == 86_400_000,
                ;
            }
            return Err(FormError::InvalidDuration);
        }
        proof {
            assert(days * MILLIS_PER_DAY <= i64::MAX) by (nonlinear_arith)
                requires
                    days <= i64::MAX / MILLIS_PER_DAY,
                    MILLIS_PER_DAY == 86_400_000,
            ;
        }
        let span: i64 = days * MILLIS_PER_DAY;
        if now > i64::MAX - span {
            return Err(FormError::InvalidDuration);
        }
        Ok(now + span)
    }

    /// The description, or none when it is empty.
    pub fn description_value(&self) -> (r: Option<String>)
        ensures
            self.description@.len() == 0 ==> r is None,
            self.description@.len() > 0 ==> r == Some(self.description),
    {
        if self.description.as_str().is_empty() {
            None
        } else {
            Some(self.description.clone())
        }
    }
}

impl ResolveMarketForm {
    /// The outcome named: `yes` is true, `no` is false.
    pub fn parse_outcome(&self) -> (r: Result<bool, FormError>)
        ensures
            r == outcome_of_word(self.outcome@),
    {
        let yes: [char; 3] = ['y', 'e', 's'];
        let no: [char; 2] = ['n', 'o'];
        assert(yes@ =~= seq!['y', 'e', 's']);
        assert(no@ =~= seq!['n', 'o']);
        if text_is(self.outcome.as_str(), &yes) {
            Ok(true)
        } else if text_is(self.outcome.as_str(), &no) {
            Ok(false)
        } else {
            Err(FormError::InvalidOutcome)
        }
    }
}

impl TradeForm {
    /// The share count and side of the trade. Fails with `InvalidAmount`
    /// for no shares and with `InvalidSide` for a side other than `yes` or
    /// `no` in any case.
    pub fn parse(&self) -> (r: Result<(u64, MarketSide), MarketError>)
        ensures
            self.shares == 0 ==> r == Err::<(u64, MarketSide), MarketError>(
                MarketError::InvalidAmount,
            ),
            self.shares > 0 ==> r == match side_of_word(lower_of(self.side@)) {
                Some(side) => Ok::<(u64, MarketSide), MarketError>((self.shares, side)),
                None => Err::<(u64, MarketSide), MarketError>(MarketError::InvalidSide),
            },
    {
        if self.shares == 0 {
            return Err(MarketError::InvalidAmount);
        }
        match MarketSide::parse(self.side.as_str()) {
            Ok(side) => Ok((self.shares, side)),
            Err(e) => Err(e),
        }
    }
}

} // verus!
