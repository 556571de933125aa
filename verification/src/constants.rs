//! Fixed protocol constants.
//!
//! Amounts of the quote currency are in lamports (1 SOL = 10^9 lamports);
//! token amounts carry six decimals.

use vstd::prelude::*;

verus! {

/// Virtual SOL reserve of a freshly launched curve (30 SOL).
pub const VIRTUAL_SOL_RESERVES: u64 = 30_000_000_000;

/// Virtual token reserve of a freshly launched curve (1.073 billion tokens).
pub const VIRTUAL_TOKEN_RESERVES: u64 = 1_073_000_000_000_000;

/// Tokens that a freshly launched curve offers for sale (793.1 million tokens).
pub const REAL_TOKEN_RESERVES: u64 = 793_100_000_000_000;

/// Supply minted at launch (one billion tokens).
pub const TOTAL_SUPPLY: u64 = 1_000_000_000_000_000;

/// Approximate launch price of one whole token, in lamports.
pub const INITIAL_PRICE_LAMPORTS: u64 = 28;

/// Market capitalisation, in lamports, associated with graduation.
pub const GRADUATION_MCAP_LAMPORTS: u64 = 69_000_000_000_000;

/// Real SOL reserve from which a curve may graduate (85 SOL).
pub const GRADUATION_SOL_THRESHOLD: u64 = 85_000_000_000;

/// Trading fee in basis points (1%).
pub const FEE_BASIS_POINTS: u64 = 100;

/// Share of the trading fee that goes to the protocol, in percent.
pub const PROTOCOL_FEE_SHARE: u64 = 80;

/// Share of the trading fee that goes to the creator, in percent.
pub const CREATOR_FEE_SHARE: u64 = 20;

/// Fee for launching a token (0.075 SOL).
pub const CREATION_FEE_LAMPORTS: u64 = 75_000_000;

/// Decimals of every launched token.
pub const TOKEN_DECIMALS: u8 = 6;

/// Longest token name, in bytes.
pub const MAX_NAME_LENGTH: usize = 32;

/// Longest token symbol, in bytes.
pub const MAX_SYMBOL_LENGTH: usize = 10;

/// Longest metadata URI, in bytes.
pub const MAX_URI_LENGTH: usize = 200;

/// Longest username, in bytes.
pub const MAX_USERNAME_LENGTH: usize = 20;

/// Basis points in a whole.
pub const BASIS_POINTS_DENOMINATOR: u64 = 10_000;

/// Percent in a whole.
pub const PERCENT_DENOMINATOR: u64 = 100;

/// A referrer earns one part in this many of the protocol fee.
pub const REFERRAL_FEE_DIVISOR: u64 = 10;

/// Factor by which a reported price is scaled.
pub const PRICE_PRECISION: u64 = 1_000_000;

} // verus!
