//! Launching an asset: a new curve with the standard starting reserves, the
//! whole supply minted into its vault, and, if the creator wishes, a first
//! buy, made as any buy is made.

use vstd::prelude::*;
use crate::config::ProtocolConfig;
use crate::constants::{
    MAX_NAME_LENGTH,
    MAX_SYMBOL_LENGTH,
    MAX_URI_LENGTH,
    REAL_TOKEN_RESERVES,
    VIRTUAL_SOL_RESERVES,
    VIRTUAL_TOKEN_RESERVES,
};
use crate::curve::tokens_out;
use crate::errors::FuseError;
use crate::events::CurveInitialized;
use crate::fees::{fee_split, fee_split_fits, lemma_fee_split_is_exact};
use crate::instructions::buy::{
    buy_receipt,
    buy_refusal,
    curve_after_buy,
    handler as buy,
    lemma_buy_keeps_curve,
    lemma_first_buy_of_one_sol,
    Buy,
    BuyReceipt,
};
use crate::referral::ReferralRouting;
use crate::state::{BondingCurve, Pubkey, ReserveSnapshot};
use crate::text::{byte_length, text_length};

verus! {

/// The records that a launch reads and writes.
#[derive(Clone, Debug, PartialEq, Eq)]
pub struct CreateToken {
    /// Who launches the asset.
    pub creator: Pubkey,
    /// The curve's record, which the launch fills.
    pub curve: BondingCurve,
    /// The asset.
    pub mint: Pubkey,
    /// Where protocol fees go.
    pub treasury: Pubkey,
    /// Address bump of the curve's record.
    pub curve_bump: u8,
}

/// What a launch is asked for.
#[derive(Clone, Debug, PartialEq, Eq)]
pub struct CreateTokenArgs {
    pub name: String,
    pub symbol: String,
    pub uri: String,
    /// Lamports that the creator spends on a first buy, if any.
    pub initial_buy_lamports: Option<u64>,
}

/// What a launch did: the amounts to mint and move, and the records to
/// publish.
#[derive(Clone, Debug, PartialEq, Eq)]
pub struct CreateTokenReceipt {
    /// Tokens to mint into the curve's vault.
    pub minted: u64,
    /// The creator's first buy, where one was made: what it moves from the
    /// creator to the treasury and to the curve and from the vault to the
    /// creator, and the records it publishes.
    pub initial_buy: Option<BuyReceipt>,
    /// The launch record.
    pub event: CurveInitialized,
}

/// The lamports of a first buy: zero where none is asked for.
pub open spec fn initial_lamports(initial_buy_lamports: Option<u64>) -> u64 {
    match initial_buy_lamports {
        Some(lamports) => lamports,
        None => 0,
    }
}

/// The curve as it is launched, before any trade: the standard starting
/// reserves, nothing raised, nothing owed, launched at `now`.
pub open spec fn fresh_curve(
    accounts: CreateToken,
    config: ProtocolConfig,
    now: i64,
    name: String,
    symbol: String,
    uri: String,
) -> BondingCurve {
    BondingCurve {
        creator: accounts.creator,
        token_mint: accounts.mint,
        token_total_supply: config.total_supply,
        virtual_sol_reserves: VIRTUAL_SOL_RESERVES,
        virtual_token_reserves: VIRTUAL_TOKEN_RESERVES,
        real_sol_reserves: 0,
        real_token_reserves: REAL_TOKEN_RESERVES,
        complete: false,
        bump: accounts.curve_bump,
        creator_fee_accumulated: 0,
        launch_timestamp: now,
        name,
        symbol,
        uri,
    }
}

/// The records of the creator's first buy: the creator buys from the curve
/// as it is launched, and no referral records come with the buy.
pub open spec fn first_buy(
    accounts: CreateToken,
    config: ProtocolConfig,
    now: i64,
    name: String,
    symbol: String,
    uri: String,
) -> Buy {
    Buy {
        user: accounts.creator,
        curve_config: fresh_curve(accounts, config, now, name, symbol, uri),
        mint: accounts.mint,
        treasury: accounts.treasury,
        user_profile: None,
        referrer_profile: None,
        referrer_wallet: None,
    }
}

/// Why a launch is refused, or `None` where it goes through. The first
/// reason that applies, in this order, is the one given: a text is too
/// long, or the first buy, where one is asked for, is refused as any buy
/// of that amount would be on the curve as it is launched, at the time of
/// the launch and with no least number of tokens asked.
pub open spec fn create_token_error(
    accounts: CreateToken,
    config: ProtocolConfig,
    now: i64,
    name: String,
    symbol: String,
    uri: String,
    initial_buy_lamports: Option<u64>,
) -> Option<FuseError> {
    if byte_length(name@) > MAX_NAME_LENGTH {
        Some(FuseError::NameTooLong)
    } else if byte_length(symbol@) > MAX_SYMBOL_LENGTH {
        Some(FuseError::SymbolTooLong)
    } else if byte_length(uri@) > MAX_URI_LENGTH {
        Some(FuseError::UriTooLong)
    } else if initial_lamports(initial_buy_lamports) > 0 {
        buy_refusal(
            first_buy(accounts, config, now, name, symbol, uri),
            config,
            now,
            initial_lamports(initial_buy_lamports),
            0,
        )
    } else {
        None
    }
}

/// The curve that a launch leaves: the curve as it is launched, moved by
/// the first buy where one is made.
pub open spec fn launched_curve(
    accounts: CreateToken,
    config: ProtocolConfig,
    now: i64,
    name: String,
    symbol: String,
    uri: String,
    initial_buy_lamports: Option<u64>,
) -> BondingCurve {
    let fresh = fresh_curve(accounts, config, now, name, symbol, uri);
    if initial_lamports(initial_buy_lamports) > 0 {
        curve_after_buy(fresh, config, initial_lamports(initial_buy_lamports))
    } else {
        fresh
    }
}

/// The receipt of a launch that goes through.
pub open spec fn create_token_receipt(
    accounts: CreateToken,
    config: ProtocolConfig,
    now: i64,
    name: String,
    symbol: String,
    uri: String,
    initial_buy_lamports: Option<u64>,
) -> CreateTokenReceipt {
    CreateTokenReceipt {
        minted: config.total_supply,
        initial_buy: if initial_lamports(initial_buy_lamports) > 0 {
            Some(
                buy_receipt(
                    first_buy(accounts, config, now, name, symbol, uri),
                    config,
                    now,
                    initial_lamports(initial_buy_lamports),
                ),
            )
        } else {
            None
        },
        event: CurveInitialized {
            mint: accounts.mint,
            creator: accounts.creator,
            name,
            symbol,
            uri,
            timestamp: now,
        },
    }
}

/// The first buy of a launch is a buy like any other. It pays the fee, and
/// the fee is divided as that of any trade; it is held to the cap of the
/// protection window, which opens with the launch; the creator is handed
/// what the net amount buys at the launch reserves; and the whole protocol
/// fee is the treasury's, since nobody refers the creator.
pub proof fn lemma_first_buy_is_a_buy(
    accounts: CreateToken,
    config: ProtocolConfig,
    now: i64,
    name: String,
    symbol: String,
    uri: String,
    lamports: u64,
)
    requires
        lamports > 0,
        create_token_error(accounts, config, now, name, symbol, uri, Some(lamports)) is None,
    ensures
        ({
            let fees = fee_split(lamports, config.fee_basis_points, config.protocol_fee_share);
            let out = tokens_out(
                VIRTUAL_SOL_RESERVES as int,
                VIRTUAL_TOKEN_RESERVES as int,
                fees.net_amount as int,
            );
            let curve = launched_curve(accounts, config, now, name, symbol, uri, Some(lamports));
            let bought = create_token_receipt(
                accounts,
                config,
                now,
                name,
                symbol,
                uri,
                Some(lamports),
            ).initial_buy->0;
            &&& fee_split_fits(lamports, config.fee_basis_points, config.protocol_fee_share)
            &&& fees.total_fee == (lamports * config.fee_basis_points) / 10_000
            &&& fees.protocol_fee + fees.creator_fee == fees.total_fee
            &&& config.sniper_protection_duration > 0 ==> lamports
                <= config.sniper_max_buy_lamports
            &&& 0 <= out <= REAL_TOKEN_RESERVES
            &&& bought.fees == fees
            &&& bought.tokens_out == out
            &&& bought.routing == (ReferralRouting {
                referrer: None,
                referral_fee: 0,
                treasury_fee: fees.protocol_fee,
            })
            &&& bought.amount_to_curve == fees.net_amount + fees.creator_fee
            &&& curve.virtual_sol_reserves == VIRTUAL_SOL_RESERVES + fees.net_amount
            &&& curve.virtual_token_reserves == VIRTUAL_TOKEN_RESERVES - out
            &&& curve.real_sol_reserves == fees.net_amount
            &&& curve.real_token_reserves == REAL_TOKEN_RESERVES - out
            &&& curve.creator_fee_accumulated == fees.creator_fee
            &&& curve.wf()
        }),
{
    let fresh = fresh_curve(accounts, config, now, name, symbol, uri);
    lemma_buy_keeps_curve(fresh, config, now, lamports, 0);
    lemma_fee_split_is_exact(lamports, config.fee_basis_points, config.protocol_fee_share);
}

/// The launch with a first buy of one SOL, worked through: at a fee of 1%,
/// of which 80% are the protocol's, and a cap of at least one SOL, the
/// creator is handed 34 277 831.558567 tokens for the 0.99 SOL that are
/// left of the fee, 0.008 SOL go to the treasury, and 0.002 SOL are owed to
/// the creator.
pub proof fn lemma_launch_with_one_sol(
    accounts: CreateToken,
    config: ProtocolConfig,
    now: i64,
    name: String,
    symbol: String,
    uri: String,
)
    requires
        byte_length(name@) <= MAX_NAME_LENGTH,
        byte_length(symbol@) <= MAX_SYMBOL_LENGTH,
        byte_length(uri@) <= MAX_URI_LENGTH,
        config.fee_basis_points == 100,
        config.protocol_fee_share == 80,
        config.sniper_protection_duration <= 0 || config.sniper_max_buy_lamports
            >= 1_000_000_000,
    ensures
        create_token_error(accounts, config, now, name, symbol, uri, Some(1_000_000_000))
            is None,
        launched_curve(accounts, config, now, name, symbol, uri, Some(1_000_000_000)).reserves()
            == (ReserveSnapshot {
            virtual_sol_reserves: 30_990_000_000,
            virtual_token_reserves: 1_038_722_168_441_433,
            real_sol_reserves: 990_000_000,
            real_token_reserves: 758_822_168_441_433,
        }),
        launched_curve(
            accounts,
            config,
            now,
            name,
            symbol,
            uri,
            Some(1_000_000_000),
        ).creator_fee_accumulated == 2_000_000,
        create_token_receipt(
            accounts,
            config,
            now,
            name,
            symbol,
            uri,
            Some(1_000_000_000),
        ).initial_buy->0.tokens_out == 34_277_831_558_567,
        create_token_receipt(
            accounts,
            config,
            now,
            name,
            symbol,
            uri,
            Some(1_000_000_000),
        ).initial_buy->0.routing.treasury_fee == 8_000_000,
{
    lemma_first_buy_of_one_sol(first_buy(accounts, config, now, name, symbol, uri), config, now);
}

/// Launches an asset at the time `now`.
///
/// The launch is refused, and nothing changes, for the first of these
/// reasons that applies: the name is longer than 32 bytes (`NameTooLong`);
/// the symbol is longer than 10 bytes (`SymbolTooLong`); the URI is longer
/// than 200 bytes (`UriTooLong`); the first buy, where one of more than
/// zero lamports is asked for, is refused as a buy: it is above the cap of
/// the protection window (`SniperLimitExceeded`), its fee leaves its range
/// (`MathOverflow`), it would take more tokens than are for sale
/// (`InsufficientLiquidity`), or a reserve would leave its range
/// (`MathOverflow`).
///
/// A launch that goes through fills the curve's record with the standard
/// starting reserves and the time of the launch, asks for the whole supply
/// to be minted, and makes the first buy as `buy` would make it for the
/// creator, without referral records and with no least number of tokens.
pub fn handler(
    accounts: &mut CreateToken,
    config: &ProtocolConfig,
    now: i64,
    name: String,
    symbol: String,
    uri: String,
    initial_buy_lamports: Option<u64>,
) -> (r: Result<CreateTokenReceipt, FuseError>)
    ensures
        r is Ok <==> create_token_error(
            *old(accounts),
            *config,
            now,
            name,
            symbol,
            uri,
            initial_buy_lamports,
        ) is None,
        r matches Err(e) ==> {
            &&& create_token_error(
                *old(accounts),
                *config,
                now,
                name,
                symbol,
                uri,
                initial_buy_lamports,
            ) == Some(e)
            &&& *final(accounts) == *old(accounts)
        },
        r matches Ok(receipt) ==> {
            let lamports = initial_lamports(initial_buy_lamports);
            let fees = fee_split(lamports, config.fee_basis_points, config.protocol_fee_share);
            let out = tokens_out(
                VIRTUAL_SOL_RESERVES as int,
                VIRTUAL_TOKEN_RESERVES as int,
                fees.net_amount as int,
            );
            let curve = final(accounts).curve;
            &&& receipt.minted == config.total_supply
            &&& receipt.initial_buy is Some <==> lamports > 0
            &&& receipt.initial_buy matches Some(bought) ==> {
                &&& bought.fees == fees
                &&& bought.tokens_out == out
                &&& bought.routing == (ReferralRouting {
                    referrer: None,
                    referral_fee: 0,
                    treasury_fee: fees.protocol_fee,
                })
                &&& bought.amount_to_curve == fees.net_amount + fees.creator_fee
                &&& bought == buy_receipt(
                    first_buy(*old(accounts), *config, now, name, symbol, uri),
                    *config,
                    now,
                    lamports,
                )
            }
            &&& curve.virtual_sol_reserves == VIRTUAL_SOL_RESERVES + fees.net_amount
            &&& curve.virtual_token_reserves == VIRTUAL_TOKEN_RESERVES - out
            &&& curve.real_sol_reserves == fees.net_amount
            &&& curve.real_token_reserves == REAL_TOKEN_RESERVES - out
            &&& curve.creator_fee_accumulated == fees.creator_fee
            &&& !curve.complete
            &&& curve.launch_timestamp == now
            &&& curve.creator == old(accounts).creator
            &&& curve.token_mint == old(accounts).mint
            &&& curve.token_total_supply == config.total_supply
            &&& receipt == create_token_receipt(
                *old(accounts),
                *config,
                now,
                name,
                symbol,
                uri,
                initial_buy_lamports,
            )
            &&& *final(accounts) == (CreateToken {
                curve: launched_curve(
                    *old(accounts),
                    *config,
                    now,
                    name,
                    symbol,
                    uri,
                    initial_buy_lamports,
                ),
                ..*old(accounts)
            })
            &&& final(accounts).curve.wf()
        },
{
    if text_length(&name) > MAX_NAME_LENGTH {
        return Err(FuseError::NameTooLong);
    }
    if text_length(&symbol) > MAX_SYMBOL_LENGTH {
        return Err(FuseError::SymbolTooLong);
    }
    if text_length(&uri) > MAX_URI_LENGTH {
        return Err(FuseError::UriTooLong);
    }
    let fresh: BondingCurve = BondingCurve {
        creator: accounts.creator,
        token_mint: accounts.mint,
        token_total_supply: config.total_supply,
        virtual_sol_reserves: VIRTUAL_SOL_RESERVES,
        virtual_token_reserves: VIRTUAL_TOKEN_RESERVES,
        real_sol_reserves: 0,
        real_token_reserves: REAL_TOKEN_RESERVES,
        complete: false,
        bump: accounts.curve_bump,
        creator_fee_accumulated: 0,
        launch_timestamp: now,
        name: name.clone(),
        symbol: symbol.clone(),
        uri: uri.clone(),
    };
    let lamports: u64 = match initial_buy_lamports {
        Some(lamports) => lamports,
        None => 0,
    };
    let initial_buy: Option<BuyReceipt> = if lamports > 0 {
        let mut buying: Buy = Buy {
            user: accounts.creator,
            curve_config: fresh,
            mint: accounts.mint,
            treasury: accounts.treasury,
            user_profile: None,
            referrer_profile: None,
            referrer_wallet: None,
        };
        let bought: BuyReceipt = match buy(&mut buying, config, now, lamports, 0) {
            Ok(bought) => bought,
            Err(e) => {
                return Err(e);
            },
        };
        proof {
            lemma_first_buy_is_a_buy(*old(accounts), *config, now, name, symbol, uri, lamports);
        }
        accounts.curve = buying.curve_config;
        Some(bought)
    } else {
        proof {
            assert(lamports * config.fee_basis_points == 0) by (nonlinear_arith)
                requires
                    lamports == 0,
            ;
            assert(0 * config.protocol_fee_share == 0) by (nonlinear_arith);
            assert(VIRTUAL_TOKEN_RESERVES * 0 == 0) by (nonlinear_arith);
        }
        accounts.curve = fresh;
        None
    };
    Ok(
        CreateTokenReceipt {
            minted: config.total_supply,
            initial_buy,
            event: CurveInitialized {
                mint: accounts.mint,
                creator: accounts.creator,
                name,
                symbol,
                uri,
                timestamp: now,
            },
        },
    )
}

} // verus!
