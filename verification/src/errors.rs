//! The ways in which an operation can be refused.

use vstd::prelude::*;

verus! {

/// Why an operation was refused. A refused operation changes nothing.
#[derive(Clone, Copy, Debug, PartialEq, Eq, Structural)]
pub enum FuseError {
    /// A buy inside the protection window exceeded the per-transaction cap.
    SniperLimitExceeded,
    /// The creator's tokens are locked until the curve graduates.
    TokensLocked,
    /// Not enough SOL to pay for the initial buy.
    InsufficientFunds,
    /// A sell would pay out less than the seller's minimum.
    SlippageExceeded,
    /// The user is already bound to a referrer.
    ReferralAlreadyExists,
    /// A user named themself as referrer.
    CannotReferSelf,
    /// A checked arithmetic operation left its range.
    MathOverflow,
    /// The curve has already been migrated.
    CurveAlreadyMigrated,
    /// The curve's real SOL reserve is below the graduation threshold.
    GraduationNotReached,
    /// The curve is complete and no longer trades.
    TradingDisabled,
    /// The protocol is paused.
    ProtocolPaused,
    /// A name is longer than allowed.
    NameTooLong,
    /// A symbol is longer than allowed.
    SymbolTooLong,
    /// A metadata URI is longer than allowed.
    UriTooLong,
    /// A buy would hand out fewer tokens than the buyer's minimum.
    MinTokensNotMet,
    /// The curve's real reserve cannot cover the trade.
    InsufficientLiquidity,
    /// A fee could not be computed.
    InvalidFee,
    /// The caller is not who the stored state says may act.
    Unauthorized,
    /// The username already belongs to someone.
    UsernameTaken,
    /// The identity already has a profile.
    AlreadyRegistered,
}

} // verus!
