//! The records that the operations leave for observers.

use vstd::prelude::*;
use crate::state::Pubkey;

verus! {

/// A curve was created.
#[derive(Clone, Debug, PartialEq, Eq)]
pub struct CurveInitialized {
    pub mint: Pubkey,
    pub creator: Pubkey,
    pub name: String,
    pub symbol: String,
    pub uri: String,
    pub timestamp: i64,
}

/// A buy or a sell went through. The record holds the reserves as they
/// were before the trade and as they are after it.
#[derive(Clone, Copy, Debug, PartialEq, Eq)]
pub struct TradeEvent {
    pub mint: Pubkey,
    pub user: Pubkey,
    pub is_buy: bool,
    /// Lamports that entered or left the pricing counter.
    pub sol_amount: u64,
    /// Tokens that left or entered the pricing counter.
    pub token_amount: u64,
    /// Lamports per token after the trade, scaled by `PRICE_PRECISION`.
    pub price: u64,
    /// The SOL pricing counter after the trade.
    pub virtual_sol_reserves: u64,
    /// The token pricing counter after the trade.
    pub virtual_token_reserves: u64,
    /// The real SOL reserve after the trade.
    pub real_sol_reserves: u64,
    /// The real token reserve after the trade.
    pub real_token_reserves: u64,
    /// The SOL pricing counter before the trade.
    pub virtual_sol_reserves_before: u64,
    /// The token pricing counter before the trade.
    pub virtual_token_reserves_before: u64,
    /// The real SOL reserve before the trade.
    pub real_sol_reserves_before: u64,
    /// The real token reserve before the trade.
    pub real_token_reserves_before: u64,
    pub market_cap_lamports: u64,
    pub timestamp: i64,
}

/// A curve was migrated.
#[derive(Clone, Copy, Debug, PartialEq, Eq)]
pub struct CurveCompleted {
    pub mint: Pubkey,
    pub migration_authority: Pubkey,
    pub final_market_cap: u64,
    pub total_sol_raised: u64,
    pub creator_payout: u64,
    pub timestamp: i64,
}

/// A buy lifted a curve's real SOL reserve to the graduation threshold.
#[derive(Clone, Copy, Debug, PartialEq, Eq)]
pub struct GraduationTriggered {
    pub mint: Pubkey,
    pub real_sol_reserves: u64,
    pub market_cap: u64,
    pub timestamp: i64,
}

} // verus!
