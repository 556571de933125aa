//! Setting up a curve in the plain way: the standard starting reserves,
//! the time of the set-up as launch time, and the minted supply, with no
//! limits on the texts and no first buy.

use vstd::prelude::*;
use crate::config::ProtocolConfig;
use crate::constants::{REAL_TOKEN_RESERVES, VIRTUAL_SOL_RESERVES, VIRTUAL_TOKEN_RESERVES};
use crate::errors::FuseError;
use crate::events::CurveInitialized;
use crate::state::{BondingCurve, Pubkey};

verus! {

/// The records that the set-up reads and writes.
#[derive(Clone, Debug, PartialEq, Eq)]
pub struct Initialize {
    /// Who sets the curve up.
    pub creator: Pubkey,
    /// The curve's record, which the set-up fills.
    pub curve_config: BondingCurve,
    /// The asset.
    pub mint: Pubkey,
    /// Address bump of the curve's record.
    pub curve_config_bump: u8,
}

/// What the set-up did: the amount to mint, and the record to publish.
#[derive(Clone, Debug, PartialEq, Eq)]
pub struct InitializeReceipt {
    /// Tokens to mint into the curve's vault.
    pub minted: u64,
    /// The set-up record.
    pub event: CurveInitialized,
}

/// The curve that the set-up leaves: launched at `now`, with the standard
/// starting reserves. Its texts stay as they were found.
pub open spec fn initialized_curve(
    accounts: Initialize,
    config: ProtocolConfig,
    now: i64,
) -> BondingCurve {
    BondingCurve {
        creator: accounts.creator,
        token_mint: accounts.mint,
        token_total_supply: config.total_supply,
        virtual_sol_reserves: VIRTUAL_SOL_RESERVES,
        virtual_token_reserves: VIRTUAL_TOKEN_RESERVES,
        real_sol_reserves: 0,
        real_token_reserves: REAL_TOKEN_RESERVES,
        complete: false,
        creator_fee_accumulated: 0,
        bump: accounts.curve_config_bump,
        launch_timestamp: now,
        ..accounts.curve_config
    }
}

/// Sets up the curve in `accounts`, at the time `now`. Nothing in the
/// set-up can be refused.
pub fn handler(
    accounts: &mut Initialize,
    config: &ProtocolConfig,
    now: i64,
    name: String,
    symbol: String,
    uri: String,
) -> (r: Result<InitializeReceipt, FuseError>)
    ensures
        r == Ok::<InitializeReceipt, FuseError>(
            InitializeReceipt {
                minted: config.total_supply,
                event: CurveInitialized {
                    mint: old(accounts).mint,
                    creator: old(accounts).creator,
                    name,
                    symbol,
                    uri,
                    timestamp: now,
                },
            },
        ),
        *final(accounts) == (Initialize {
            curve_config: initialized_curve(*old(accounts), *config, now),
            ..*old(accounts)
        }),
        final(accounts).curve_config.launch_timestamp == now,
        final(accounts).curve_config.wf(),
{
    accounts.curve_config.creator = accounts.creator;
    accounts.curve_config.token_mint = accounts.mint;
    accounts.curve_config.token_total_supply = config.total_supply;
    accounts.curve_config.virtual_sol_reserves = VIRTUAL_SOL_RESERVES;
    accounts.curve_config.virtual_token_reserves = VIRTUAL_TOKEN_RESERVES;
    accounts.curve_config.real_sol_reserves = 0;
    accounts.curve_config.real_token_reserves = REAL_TOKEN_RESERVES;
    accounts.curve_config.complete = false;
    accounts.curve_config.creator_fee_accumulated = 0;
    accounts.curve_config.bump = accounts.curve_config_bump;
    accounts.curve_config.launch_timestamp = now;
    Ok(
        InitializeReceipt {
            minted: config.total_supply,
            event: CurveInitialized {
                mint: accounts.mint,
                creator: accounts.creator,
                name,
                symbol,
                uri,
                timestamp: now,
            },
        },
    )
}

} // verus!
