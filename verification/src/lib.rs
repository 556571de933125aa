//! A bonding-curve launchpad: assets priced by two reserve counters, a
//! referral graph that shares the protocol fee, and a one-way graduation to
//! an outside liquidity venue.
//!
//! Every operation takes the records it works on, the protocol's settings
//! and, where it needs one, the time. It either goes through, changes the
//! records and returns a receipt that says which amounts are to be moved
//! and which records published, or it is refused and changes nothing.
//!
//! The operations stand in `instructions`, one module each, and are
//! offered again here under the names by which they are called. `curve`
//! holds the pricing rule, `fees` the fee and its division, `referral` the
//! routing of the protocol fee, and `lifecycle` what holds of a curve
//! through any run of operations.

use vstd::prelude::*;

pub mod config;
pub mod constants;
pub mod cpi;
pub mod curve;
pub mod errors;
pub mod events;
pub mod fees;
pub mod instructions;
pub mod lifecycle;
pub mod meteora_interface;
pub mod raydium_interface;
pub mod referral;
pub mod state;
pub mod text;

use crate::config::ProtocolConfig;
use crate::curve::{reported_market_cap, reported_price, sol_out, tokens_out};
use crate::errors::FuseError;
use crate::events::CurveInitialized;
use crate::fees::fee_split;
use crate::instructions::buy::{accounts_after_buy, buy_receipt, buy_refusal, Buy, BuyReceipt};
use crate::constants::{REAL_TOKEN_RESERVES, VIRTUAL_SOL_RESERVES, VIRTUAL_TOKEN_RESERVES};
use crate::instructions::create_token::{
    create_token_error,
    create_token_receipt,
    first_buy,
    initial_lamports,
    launched_curve,
    CreateToken,
    CreateTokenReceipt,
};
use crate::instructions::initialize::{initialized_curve, Initialize, InitializeReceipt};
use crate::instructions::migrate::{
    accounts_after_migrate,
    liquidity_lamports,
    migrate_error,
    migrate_receipt,
    Migrate,
    MigrateReceipt,
};
use crate::instructions::register_user::{
    new_profile,
    new_referral_code,
    register_user_error,
    RegisterUser,
};
use crate::instructions::sell::{
    accounts_after_sell,
    sell_receipt,
    sell_refusal,
    Sell,
    SellReceipt,
};
use crate::instructions::set_referrer::{
    accounts_after_set_referrer,
    set_referrer_error,
    SetReferrer,
};
use crate::referral::{is_trader, routing, ReferralRouting};

verus! {

/// Sets up a curve in the plain way, launched at `now`. Nothing in it can
/// be refused.
pub fn initialize(
    ctx: &mut Initialize,
    config: &ProtocolConfig,
    now: i64,
    name: String,
    symbol: String,
    uri: String,
) -> (r: Result<InitializeReceipt, FuseError>)
    ensures
        r == Ok::<InitializeReceipt, FuseError>(
            InitializeReceipt {
                minted: config.total_supply,
                event: CurveInitialized {
                    mint: old(ctx).mint,
                    creator: old(ctx).creator,
                    name,
                    symbol,
                    uri,
                    timestamp: now,
                },
            },
        ),
        *final(ctx) == (Initialize {
            curve_config: initialized_curve(*old(ctx), *config, now),
            ..*old(ctx)
        }),
        final(ctx).curve_config.launch_timestamp == now,
        final(ctx).curve_config.wf(),
{
    instructions::initialize::handler(ctx, config, now, name, symbol, uri)
}

/// Launches an asset whose name has at most 32 bytes, whose symbol has at
/// most 10 and whose metadata URI has at most 200, with a first buy of
/// `initial_buy_lamports` by the creator if that is given and not zero.
pub fn create_token(
    ctx: &mut CreateToken,
    config: &ProtocolConfig,
    now: i64,
    name: String,
    symbol: String,
    uri: String,
    initial_buy_lamports: Option<u64>,
) -> (r: Result<CreateTokenReceipt, FuseError>)
    ensures
        r is Ok <==> create_token_error(
            *old(ctx),
            *config,
            now,
            name,
            symbol,
            uri,
            initial_buy_lamports,
        ) is None,
        r matches Err(e) ==> {
            &&& create_token_error(
                *old(ctx),
                *config,
                now,
                name,
                symbol,
                uri,
                initial_buy_lamports,
            ) == Some(e)
            &&& *final(ctx) == *old(ctx)
        },
        r matches Ok(receipt) ==> {
            let lamports = initial_lamports(initial_buy_lamports);
            let fees = fee_split(lamports, config.fee_basis_points, config.protocol_fee_share);
            let out = tokens_out(
                VIRTUAL_SOL_RESERVES as int,
                VIRTUAL_TOKEN_RESERVES as int,
                fees.net_amount as int,
            );
            let curve = final(ctx).curve;
            &&& receipt.minted == config.total_supply
            &&& receipt.initial_buy is Some <==> lamports > 0
            &&& receipt.initial_buy matches Some(bought) ==> {
                &&& bought.fees == fees
                &&& bought.tokens_out == out
                &&& bought.routing == (ReferralRouting {
                    referrer: None,
                    referral_fee: 0,
                    treasury_fee: fees.protocol_fee,
                })
                &&& bought.amount_to_curve == fees.net_amount + fees.creator_fee
                &&& bought == buy_receipt(
                    first_buy(*old(ctx), *config, now, name, symbol, uri),
                    *config,
                    now,
                    lamports,
                )
            }
            &&& curve.virtual_sol_reserves == VIRTUAL_SOL_RESERVES + fees.net_amount
            &&& curve.virtual_token_reserves == VIRTUAL_TOKEN_RESERVES - out
            &&& curve.real_sol_reserves == fees.net_amount
            &&& curve.real_token_reserves == REAL_TOKEN_RESERVES - out
            &&& curve.creator_fee_accumulated == fees.creator_fee
            &&& !curve.complete
            &&& curve.launch_timestamp == now
            &&& curve.creator == old(ctx).creator
            &&& curve.token_mint == old(ctx).mint
            &&& curve.token_total_supply == config.total_supply
            &&& receipt == create_token_receipt(
                *old(ctx),
                *config,
                now,
                name,
                symbol,
                uri,
                initial_buy_lamports,
            )
            &&& *final(ctx) == (CreateToken {
                curve: launched_curve(
                    *old(ctx),
                    *config,
                    now,
                    name,
                    symbol,
                    uri,
                    initial_buy_lamports,
                ),
                ..*old(ctx)
            })
            &&& final(ctx).curve.wf()
        },
{
    instructions::create_token::handler(ctx, config, now, name, symbol, uri, initial_buy_lamports)
}

/// Buys tokens for `amount_in` lamports, and at least `min_tokens_out` of
/// them.
pub fn buy(
    ctx: &mut Buy,
    config: &ProtocolConfig,
    now: i64,
    amount_in: u64,
    min_tokens_out: u64,
) -> (r:
    Result<BuyReceipt, FuseError>)
    ensures
        r is Ok <==> buy_refusal(*old(ctx), *config, now, amount_in, min_tokens_out) is None,
        r matches Err(e) ==> {
            &&& buy_refusal(*old(ctx), *config, now, amount_in, min_tokens_out) == Some(e)
            &&& *final(ctx) == *old(ctx)
        },
        r matches Ok(receipt) ==> {
            let before = old(ctx).curve_config;
            let after = final(ctx).curve_config;
            &&& receipt.fees == fee_split(
                amount_in,
                config.fee_basis_points,
                config.protocol_fee_share,
            )
            &&& receipt.tokens_out == tokens_out(
                before.virtual_sol_reserves as int,
                before.virtual_token_reserves as int,
                receipt.fees.net_amount as int,
            )
            &&& receipt.routing == routing(
                old(ctx).user,
                old(ctx).user_profile,
                old(ctx).referrer_profile,
                old(ctx).referrer_wallet,
                receipt.fees.protocol_fee,
            )
            &&& receipt.routing.referrer matches Some(paid) ==> !is_trader(
                old(ctx).user,
                old(ctx).user_profile,
                paid,
            )
            &&& receipt.amount_to_curve == receipt.fees.net_amount + receipt.fees.creator_fee
            &&& receipt.routing.referral_fee + receipt.routing.treasury_fee
                + receipt.amount_to_curve == amount_in
            &&& after.virtual_sol_reserves == before.virtual_sol_reserves + receipt.fees.net_amount
            &&& after.virtual_token_reserves == before.virtual_token_reserves - receipt.tokens_out
            &&& after.real_sol_reserves == before.real_sol_reserves + receipt.fees.net_amount
            &&& after.real_token_reserves == before.real_token_reserves - receipt.tokens_out
            &&& after.creator_fee_accumulated == before.creator_fee_accumulated
                + receipt.fees.creator_fee
            &&& receipt.trade.price == reported_price(
                after.virtual_sol_reserves,
                after.virtual_token_reserves,
            )
            &&& receipt.trade.market_cap_lamports == reported_market_cap(
                after.virtual_sol_reserves,
                after.virtual_token_reserves,
                after.token_total_supply,
            )
            &&& receipt.graduation is Some <==> before.real_sol_reserves
                < config.graduation_sol_threshold <= after.real_sol_reserves
            &&& receipt == buy_receipt(*old(ctx), *config, now, amount_in)
            &&& *final(ctx) == accounts_after_buy(*old(ctx), *config, amount_in)
        },
        final(ctx).curve_config.invariant_product() >= old(
            ctx,
        ).curve_config.invariant_product(),
        old(ctx).curve_config.wf() ==> final(ctx).curve_config.wf(),
{
    instructions::buy::handler(ctx, config, now, amount_in, min_tokens_out)
}

/// Sells `amount_in` tokens for at least `min_sol_out` lamports.
pub fn sell(
    ctx: &mut Sell,
    config: &ProtocolConfig,
    now: i64,
    amount_in: u64,
    min_sol_out: u64,
) -> (r:
    Result<SellReceipt, FuseError>)
    ensures
        r is Ok <==> sell_refusal(*old(ctx), *config, amount_in, min_sol_out) is None,
        r matches Err(e) ==> {
            &&& sell_refusal(*old(ctx), *config, amount_in, min_sol_out) == Some(e)
            &&& *final(ctx) == *old(ctx)
        },
        r matches Ok(receipt) ==> {
            let before = old(ctx).curve_config;
            let after = final(ctx).curve_config;
            &&& receipt.tokens_in == amount_in
            &&& receipt.sol_out == sol_out(
                before.virtual_sol_reserves as int,
                before.virtual_token_reserves as int,
                amount_in as int,
            )
            &&& receipt.fees == fee_split(
                receipt.sol_out,
                config.fee_basis_points,
                config.protocol_fee_share,
            )
            &&& receipt.user_receives == receipt.sol_out - receipt.fees.total_fee
            &&& receipt.routing == routing(
                old(ctx).user,
                old(ctx).user_profile,
                old(ctx).referrer_profile,
                old(ctx).referrer_wallet,
                receipt.fees.protocol_fee,
            )
            &&& receipt.routing.referrer matches Some(paid) ==> !is_trader(
                old(ctx).user,
                old(ctx).user_profile,
                paid,
            )
            &&& receipt.user_receives + receipt.routing.referral_fee
                + receipt.routing.treasury_fee + receipt.fees.creator_fee == receipt.sol_out
            &&& after.virtual_sol_reserves == before.virtual_sol_reserves - receipt.sol_out
            &&& after.virtual_token_reserves == before.virtual_token_reserves + amount_in
            &&& after.real_sol_reserves == before.real_sol_reserves - receipt.sol_out
            &&& after.real_token_reserves == before.real_token_reserves + amount_in
            &&& after.creator_fee_accumulated == before.creator_fee_accumulated
                + receipt.fees.creator_fee
            &&& receipt.trade.price == reported_price(
                after.virtual_sol_reserves,
                after.virtual_token_reserves,
            )
            &&& receipt.trade.market_cap_lamports == reported_market_cap(
                after.virtual_sol_reserves,
                after.virtual_token_reserves,
                after.token_total_supply,
            )
            &&& receipt == sell_receipt(*old(ctx), *config, now, amount_in)
            &&& *final(ctx) == accounts_after_sell(*old(ctx), *config, amount_in)
        },
        final(ctx).curve_config.invariant_product() >= old(
            ctx,
        ).curve_config.invariant_product(),
        old(ctx).curve_config.wf() ==> final(ctx).curve_config.wf(),
{
    instructions::sell::handler(ctx, config, now, amount_in, min_sol_out)
}

/// Graduates a curve that has reached the graduation threshold.
pub fn migrate(ctx: &mut Migrate, config: &ProtocolConfig, now: i64) -> (r: Result<
    MigrateReceipt,
    FuseError,
>)
    ensures
        r is Ok <==> migrate_error(*old(ctx), *config) is None,
        r matches Err(e) ==> {
            &&& migrate_error(*old(ctx), *config) == Some(e)
            &&& *final(ctx) == *old(ctx)
        },
        r matches Ok(receipt) ==> {
            let before = old(ctx).curve_config;
            let after = final(ctx).curve_config;
            &&& receipt.creator_payout == before.creator_fee_accumulated
            &&& receipt.sol_for_liquidity == liquidity_lamports(*old(ctx))
            &&& receipt.tokens_for_liquidity == old(ctx).vault_amount
            &&& receipt.creator_payout + receipt.sol_for_liquidity <= old(ctx).curve_lamports
            &&& after.complete
            &&& after.real_sol_reserves == 0
            &&& after.real_token_reserves == 0
            &&& after.creator_fee_accumulated == 0
            &&& after.virtual_sol_reserves == before.virtual_sol_reserves
            &&& after.virtual_token_reserves == before.virtual_token_reserves
            &&& receipt.event.final_market_cap == reported_market_cap(
                before.virtual_sol_reserves,
                before.virtual_token_reserves,
                before.token_total_supply,
            )
            &&& receipt == migrate_receipt(*old(ctx), now)
            &&& *final(ctx) == accounts_after_migrate(*old(ctx))
        },
        old(ctx).curve_config.wf() ==> final(ctx).curve_config.wf(),
{
    instructions::migrate::handler(ctx, config, now)
}

/// Registers a user under a username of at most 20 bytes that nobody has
/// claimed.
pub fn register_user(ctx: &mut RegisterUser, username: String) -> (r: Result<(), FuseError>)
    ensures
        r is Ok <==> register_user_error(*old(ctx), username@) is None,
        r is Err ==> {
            &&& register_user_error(*old(ctx), username@) == Some(r->Err_0)
            &&& *final(ctx) == *old(ctx)
        },
        r is Ok ==> *final(ctx) == (RegisterUser {
            user_profile: Some(new_profile(*old(ctx), username)),
            referral_code_mapping: Some(new_referral_code(*old(ctx), username)),
            ..*old(ctx)
        }),
{
    instructions::register_user::handler(ctx, username)
}

/// Binds a user to the owner of a referral code.
pub fn set_referrer(ctx: &mut SetReferrer) -> (r: Result<(), FuseError>)
    ensures
        r is Ok <==> set_referrer_error(*old(ctx)) is None,
        r is Err ==> {
            &&& set_referrer_error(*old(ctx)) == Some(r->Err_0)
            &&& *final(ctx) == *old(ctx)
        },
        r is Ok ==> {
            &&& final(ctx).user_profile.referrer == Some(
                old(ctx).referral_code_account.owner,
            )
            &&& old(ctx).referrer_profile.authority == old(
                ctx,
            ).referral_code_account.owner
            &&& final(ctx).referrer_profile.referral_count == old(
                ctx,
            ).referrer_profile.referral_count + 1
            &&& *final(ctx) == accounts_after_set_referrer(*old(ctx))
        },
{
    instructions::set_referrer::handler(ctx)
}

} // verus!
