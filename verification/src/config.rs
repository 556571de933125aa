//! What the protocol is configured with. The operations read these values
//! and never change them.

use vstd::prelude::*;
use crate::constants::{
    FEE_BASIS_POINTS,
    GRADUATION_SOL_THRESHOLD,
    PROTOCOL_FEE_SHARE,
    TOTAL_SUPPLY,
};
use crate::fees::{fee_split, fee_split_fits, lemma_fee_split_fits};

verus! {

/// The protocol's settings.
#[derive(Clone, Copy, Debug, PartialEq, Eq, Structural)]
pub struct ProtocolConfig {
    /// Trading fee, in basis points of the traded SOL amount.
    pub fee_basis_points: u64,
    /// The protocol's share of the trading fee, in percent. The rest is the
    /// creator's.
    pub protocol_fee_share: u64,
    /// Real SOL reserve from which a curve may graduate.
    pub graduation_sol_threshold: u64,
    /// Seconds after launch during which buys are capped.
    pub sniper_protection_duration: i64,
    /// Largest buy, in lamports, during those seconds.
    pub sniper_max_buy_lamports: u64,
    /// Supply minted for every launched asset.
    pub total_supply: u64,
}

impl ProtocolConfig {
    /// The standard fee, split, threshold and supply, with the given
    /// protection window.
    pub open spec fn standard_spec(
        sniper_protection_duration: i64,
        sniper_max_buy_lamports: u64,
    ) -> ProtocolConfig {
        ProtocolConfig {
            fee_basis_points: FEE_BASIS_POINTS,
            protocol_fee_share: PROTOCOL_FEE_SHARE,
            graduation_sol_threshold: GRADUATION_SOL_THRESHOLD,
            sniper_protection_duration,
            sniper_max_buy_lamports,
            total_supply: TOTAL_SUPPLY,
        }
    }

    /// The standard fee, split, threshold and supply, with the given
    /// protection window.
    pub fn standard(sniper_protection_duration: i64, sniper_max_buy_lamports: u64) -> (config:
        ProtocolConfig)
        ensures
            config == Self::standard_spec(sniper_protection_duration, sniper_max_buy_lamports),
    {
        ProtocolConfig {
            fee_basis_points: FEE_BASIS_POINTS,
            protocol_fee_share: PROTOCOL_FEE_SHARE,
            graduation_sol_threshold: GRADUATION_SOL_THRESHOLD,
            sniper_protection_duration,
            sniper_max_buy_lamports,
            total_supply: TOTAL_SUPPLY,
        }
    }
}

/// Under the standard settings the fee is one hundredth of the amount,
/// rounded down, of which four fifths, rounded down, are the protocol's;
/// and the fee computation is refused only for amounts above a hundredth of
/// what 64 bits hold.
pub proof fn lemma_standard_fee(
    sniper_protection_duration: i64,
    sniper_max_buy_lamports: u64,
    amount: u64,
)
    ensures
        ({
            let config = ProtocolConfig::standard_spec(
                sniper_protection_duration,
                sniper_max_buy_lamports,
            );
            let split = fee_split(amount, config.fee_basis_points, config.protocol_fee_share);
            &&& fee_split_fits(amount, config.fee_basis_points, config.protocol_fee_share)
                <==> amount <= 184_467_440_737_095_516
            &&& amount <= 184_467_440_737_095_516 ==> {
                &&& split.total_fee == amount / 100
                &&& split.protocol_fee == (split.total_fee * 4) / 5
                &&& split.creator_fee == split.total_fee - split.protocol_fee
                &&& split.net_amount == amount - split.total_fee
            }
        }),
{
    if amount <= 184_467_440_737_095_516 {
        lemma_fee_split_fits(amount, FEE_BASIS_POINTS, PROTOCOL_FEE_SHARE);
    }
}

} // verus!
