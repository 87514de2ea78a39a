use vstd::prelude::*;

verus! {

/// Reason codes returned by every operation of the engine.
///
/// An operation that returns one of these has left every entity it was
/// handed exactly as it found it.
#[derive(Clone, Copy, Debug, PartialEq, Eq, Structural)]
pub enum PredictionMarketError {
    /// A creation parameter is out of bounds.
    InvalidConfiguration,
    /// The caller lacks the administrative capability.
    Unauthorized,
    /// The caller is not the market's designated oracle.
    UnauthorizedResolver,
    /// The caller is neither the creator nor the oracle.
    InvalidAuthority,
    /// The market is not in the state the operation needs.
    MarketNotActive,
    /// The resolution deadline has not been reached yet.
    MarketNotExpired,
    /// The resolution deadline has passed.
    MarketExpired,
    /// The market has not been resolved.
    MarketNotResolved,
    /// The market has not been cancelled.
    MarketNotCancelled,
    /// A bet of zero units.
    InvalidBetAmount,
    /// A bet under the market's minimum.
    BetBelowMinimum,
    /// A bet over the market's maximum.
    BetAboveMaximum,
    /// An outcome index outside the market's outcomes.
    InvalidOutcome,
    /// The potential payout of a bet exceeds the market's cap.
    PayoutTooHigh,
    /// The position has been claimed before.
    AlreadyClaimed,
    /// The position belongs to another bettor or another market.
    InvalidPosition,
    /// A winning position whose net claim is zero.
    NoWinnings,
    /// An amount of zero, or one that rounds to nothing.
    InvalidAmount,
    /// The result falls short of the caller's stated minimum.
    SlippageExceeded,
    /// More shares were asked for than the position holds.
    InsufficientLpTokens,
    /// The pool has no shares outstanding.
    EmptyPool,
    /// A result does not fit its type.
    ArithmeticOverflow,
    /// A subtraction would go below zero.
    ArithmeticUnderflow,
    /// A division by zero.
    DivisionByZero,
    /// A token account holds less than must leave it.
    InsufficientTokenBalance,
    /// The resolution evidence is too large.
    InvalidResolutionData,
    /// A bet under the stated minimum.
    BetTooSmall,
    /// A bet over the stated maximum.
    BetTooLarge,
    /// A bet over the bettor's balance.
    InsufficientBalance,
    /// A bet that would take the stakes over the market's cap.
    MarketCapExceeded,
}

} // verus!
