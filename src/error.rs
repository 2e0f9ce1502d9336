use vstd::prelude::*;

verus! {

/// Why an operation of the market engine was refused.
#[derive(Debug, Clone, Copy, PartialEq, Eq, Structural)]
pub enum MarketError {
    /// A share count that is not positive.
    InvalidAmount,
    /// A liquidity parameter (or a pool) that is not positive.
    InvalidLiquidity,
    /// A side token other than `yes` or `no`.
    InvalidSide,
    /// A price that no valid market state produces, or an amount that
    /// cannot be represented.
    ComputationError,
    /// The market is not open for trading.
    MarketClosed,
    /// The market has already been resolved.
    AlreadyResolved,
    /// The market is still open and cannot be resolved yet.
    NotYetClosed,
    /// The requester may not resolve this market.
    Unauthorized,
    /// The user's balance does not cover the cost.
    InsufficientBalance,
    /// The user's position holds fewer shares than requested.
    InsufficientShares,
    /// The market has fewer outstanding shares on that side than requested.
    InsufficientSupply,
    /// No market has this identifier.
    MarketNotFound,
    /// The user holds no position on this market and side.
    PositionNotFound,
    /// No user has this identifier.
    UserNotFound,
    /// Another account already uses this username.
    UsernameTaken,
}

} // verus!
