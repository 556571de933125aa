//! Graduating a curve: the one-way step from trading on the curve to
//! liquidity on an outside venue.

use vstd::prelude::*;
use crate::config::ProtocolConfig;
use crate::curve::{calculate_market_cap, reported_market_cap};
use crate::errors::FuseError;
use crate::events::CurveCompleted;
use crate::instructions::buy::{buy_refusal, Buy};
use crate::instructions::sell::{sell_refusal, Sell};
use crate::state::{BondingCurve, ProtocolState, Pubkey};

verus! {

/// The records that a migration reads and writes.
#[derive(Clone, Debug, PartialEq, Eq)]
pub struct Migrate {
    /// Who asks for the migration, and receives the liquidity to deposit.
    pub migration_authority: Pubkey,
    /// The protocol's global record, which names who may migrate.
    pub protocol_state: ProtocolState,
    /// The curve to graduate.
    pub curve_config: BondingCurve,
    /// The asset.
    pub mint: Pubkey,
    /// Who is to receive the creator's fees.
    pub creator: Pubkey,
    /// Tokens in the curve's vault as the operation starts.
    pub vault_amount: u64,
    /// Lamports held by the curve's record as the operation starts.
    pub curve_lamports: u64,
    /// Lamports that must stay with the curve's record.
    pub rent_exempt_minimum: u64,
}

/// What a migration did: the amounts to move, and the record to publish.
#[derive(Clone, Copy, Debug, PartialEq, Eq)]
pub struct MigrateReceipt {
    /// Lamports to move from the curve to the creator.
    pub creator_payout: u64,
    /// Lamports to hand to the venue: what the curve holds after the
    /// creator is paid, less the reserved minimum.
    pub sol_for_liquidity: u64,
    /// Tokens to hand to the venue: all that the vault holds.
    pub tokens_for_liquidity: u64,
    /// The completion record.
    pub event: CurveCompleted,
}

/// Whether the curve has raised enough to graduate. Looking changes nothing.
pub open spec fn graduation_reached(curve: BondingCurve, config: ProtocolConfig) -> bool {
    curve.real_sol_reserves >= config.graduation_sol_threshold
}

/// Whether the curve has raised enough to graduate. Looking changes nothing.
pub fn is_graduation_reached(curve: &BondingCurve, config: &ProtocolConfig) -> (reached: bool)
    ensures
        reached == graduation_reached(*curve, *config),
{
    curve.real_sol_reserves >= config.graduation_sol_threshold
}

/// Why a migration is refused, or `None` where it goes through. The first
/// reason that applies, in this order, is the one given.
pub open spec fn migrate_error(accounts: Migrate, config: ProtocolConfig) -> Option<FuseError> {
    let curve = accounts.curve_config;
    if curve.complete {
        Some(FuseError::CurveAlreadyMigrated)
    } else if !graduation_reached(curve, config) {
        Some(FuseError::GraduationNotReached)
    } else if accounts.migration_authority != accounts.protocol_state.authority {
        Some(FuseError::Unauthorized)
    } else if accounts.creator != curve.creator {
        Some(FuseError::Unauthorized)
    } else if accounts.curve_lamports < curve.creator_fee_accumulated {
        Some(FuseError::MathOverflow)
    } else if curve.virtual_token_reserves == 0 {
        Some(FuseError::MathOverflow)
    } else {
        None
    }
}

/// The lamports that a migration hands to the venue.
pub open spec fn liquidity_lamports(accounts: Migrate) -> int {
    let left = accounts.curve_lamports - accounts.curve_config.creator_fee_accumulated;
    if left >= accounts.rent_exempt_minimum {
        left - accounts.rent_exempt_minimum
    } else {
        0
    }
}

/// The curve after its migration: complete, with no real reserves and
/// nothing owed to the creator. The pricing counters stay, for the record.
pub open spec fn curve_after_migrate(curve: BondingCurve) -> BondingCurve {
    BondingCurve {
        complete: true,
        real_sol_reserves: 0,
        real_token_reserves: 0,
        creator_fee_accumulated: 0,
        ..curve
    }
}

/// The records after a migration that goes through.
pub open spec fn accounts_after_migrate(accounts: Migrate) -> Migrate {
    Migrate { curve_config: curve_after_migrate(accounts.curve_config), ..accounts }
}

/// The receipt of a migration that goes through.
pub open spec fn migrate_receipt(accounts: Migrate, now: i64) -> MigrateReceipt {
    let curve = accounts.curve_config;
    MigrateReceipt {
        creator_payout: curve.creator_fee_accumulated,
        sol_for_liquidity: liquidity_lamports(accounts) as u64,
        tokens_for_liquidity: accounts.vault_amount,
        event: CurveCompleted {
            mint: accounts.mint,
            migration_authority: accounts.migration_authority,
            final_market_cap: reported_market_cap(
                curve.virtual_sol_reserves,
                curve.virtual_token_reserves,
                curve.token_total_supply,
            ) as u64,
            total_sol_raised: liquidity_lamports(accounts) as u64,
            creator_payout: curve.creator_fee_accumulated,
            timestamp: now,
        },
    }
}

/// A curve that trades and is below the graduation threshold is not
/// migrated: whoever asks, and with whatever balances, is refused with
/// `GraduationNotReached`.
pub proof fn lemma_migrate_needs_graduation(accounts: Migrate, config: ProtocolConfig)
    requires
        !accounts.curve_config.complete,
        accounts.curve_config.real_sol_reserves < config.graduation_sol_threshold,
    ensures
        migrate_error(accounts, config) == Some(FuseError::GraduationNotReached),
{
}

/// A migration happens once. After it the curve is complete and holds no
/// real reserves, and whatever is asked of the curve from then on is
/// refused: a further migration, by whomever and with whatever balances,
/// and a buy and a sell, by whomever and with whatever records.
pub proof fn lemma_migration_is_final(
    accounts: Migrate,
    config: ProtocolConfig,
    again: Migrate,
    buying: Buy,
    selling: Sell,
    now: i64,
    amount_in: u64,
    min_out: u64,
)
    requires
        migrate_error(accounts, config) is None,
        again.curve_config == accounts_after_migrate(accounts).curve_config,
        buying.curve_config == accounts_after_migrate(accounts).curve_config,
        selling.curve_config == accounts_after_migrate(accounts).curve_config,
    ensures
        accounts_after_migrate(accounts).curve_config.complete,
        accounts_after_migrate(accounts).curve_config.real_sol_reserves == 0,
        accounts_after_migrate(accounts).curve_config.real_token_reserves == 0,
        migrate_error(again, config) == Some(FuseError::CurveAlreadyMigrated),
        buy_refusal(buying, config, now, amount_in, min_out) == Some(FuseError::TradingDisabled),
        sell_refusal(selling, config, amount_in, min_out) == Some(FuseError::TradingDisabled),
{
}

/// Graduates the curve in `accounts`, at the time `now`.
///
/// The migration is refused, and nothing changes, for the first of these
/// reasons that applies: the curve is already complete
/// (`CurveAlreadyMigrated`); the real SOL reserve is below the graduation
/// threshold (`GraduationNotReached`); the one who asks is not the
/// protocol's authority, or the creator named is not the curve's
/// (`Unauthorized`); the curve's record holds fewer lamports than are owed
/// to the creator, or the token counter is empty, so that there is no
/// price to report (`MathOverflow`).
///
/// A migration that goes through pays the creator what is owed, hands the
/// venue all lamports above the reserved minimum and all tokens in the
/// vault, and completes the curve for good.
pub fn handler(accounts: &mut Migrate, config: &ProtocolConfig, now: i64) -> (r: Result<
    MigrateReceipt,
    FuseError,
>)
    ensures
        r is Ok <==> migrate_error(*old(accounts), *config) is None,
        r matches Err(e) ==> {
            &&& migrate_error(*old(accounts), *config) == Some(e)
            &&& *final(accounts) == *old(accounts)
        },
        r matches Ok(receipt) ==> {
            let before = old(accounts).curve_config;
            let after = final(accounts).curve_config;
            &&& receipt.creator_payout == before.creator_fee_accumulated
            &&& receipt.sol_for_liquidity == liquidity_lamports(*old(accounts))
            &&& receipt.tokens_for_liquidity == old(accounts).vault_amount
            &&& receipt.creator_payout + receipt.sol_for_liquidity <= old(accounts).curve_lamports
            &&& after.complete
            &&& after.real_sol_reserves == 0
            &&& after.real_token_reserves == 0
            &&& after.creator_fee_accumulated == 0
            &&& after.virtual_sol_reserves == before.virtual_sol_reserves
            &&& after.virtual_token_reserves == before.virtual_token_reserves
            &&& receipt.event.final_market_cap == reported_market_cap(
                before.virtual_sol_reserves,
                before.virtual_token_reserves,
                before.token_total_supply,
            )
            &&& receipt == migrate_receipt(*old(accounts), now)
            &&& *final(accounts) == accounts_after_migrate(*old(accounts))
        },
        old(accounts).curve_config.wf() ==> final(accounts).curve_config.wf(),
{
    if accounts.curve_config.complete {
        return Err(FuseError::CurveAlreadyMigrated);
    }
    if !is_graduation_reached(&accounts.curve_config, config) {
        return Err(FuseError::GraduationNotReached);
    }
    if accounts.migration_authority != accounts.protocol_state.authority {
        return Err(FuseError::Unauthorized);
    }
    if accounts.creator != accounts.curve_config.creator {
        return Err(FuseError::Unauthorized);
    }
    let creator_fees: u64 = accounts.curve_config.creator_fee_accumulated;
    let left: u64 = match accounts.curve_lamports.checked_sub(creator_fees) {
        Some(left) => left,
        None => {
            return Err(FuseError::MathOverflow);
        },
    };
    if accounts.curve_config.virtual_token_reserves == 0 {
        return Err(FuseError::MathOverflow);
    }
    let sol_for_liquidity: u64 = left.saturating_sub(accounts.rent_exempt_minimum);
    let tokens_for_liquidity: u64 = accounts.vault_amount;

    accounts.curve_config.creator_fee_accumulated = 0;
    accounts.curve_config.complete = true;
    accounts.curve_config.real_sol_reserves = 0;
    accounts.curve_config.real_token_reserves = 0;

    let final_market_cap: u64 = calculate_market_cap(
        accounts.curve_config.virtual_sol_reserves,
        accounts.curve_config.virtual_token_reserves,
        accounts.curve_config.token_total_supply,
    );
    Ok(
        MigrateReceipt {
            creator_payout: creator_fees,
            sol_for_liquidity,
            tokens_for_liquidity,
            event: CurveCompleted {
                mint: accounts.mint,
                migration_authority: accounts.migration_authority,
                final_market_cap,
                total_sol_raised: sol_for_liquidity,
                creator_payout: creator_fees,
                timestamp: now,
            },
        },
    )
}

} // verus!
