//! A binary-outcome prediction market: a logarithmic market maker prices YES
//! and NO shares, users hold positions, and a resolved market pays each
//! winning share one unit of currency.
//!
//! Amounts are fixed-point integers: one share, one unit of currency and a
//! probability of one are all `UNIT` (one million).

pub mod error;
pub mod pricing;
pub mod market;
pub mod position;
pub mod user;
pub mod snapshot;
pub mod exchange;
pub mod supply;
pub mod trading;
pub mod settlement;
pub mod history;
pub mod forms;
pub mod session;
pub mod laws;
pub mod accounts;

pub use error::MarketError;
pub use pricing::{AmmPricing, LmsrPricing, UNIT};
pub use market::{Market, MarketId, MarketSide, MarketStatus, UserId};
pub use position::{Position, PositionId};
pub use user::User;
pub use snapshot::PriceSnapshot;
pub use exchange::Exchange;
pub use trading::BuyQuote;
pub use settlement::{Payout, SettlementReport};
pub use forms::{CreateMarketForm, FormError, LoginForm, ResolveMarketForm, SignupForm, TradeForm};
pub use session::{AuthSession, OptionalAuth, RequireAuth};
