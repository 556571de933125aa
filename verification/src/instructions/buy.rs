//! Buying tokens from a curve.

use vstd::prelude::*;
use crate::config::ProtocolConfig;
use crate::curve::{
    calculate_current_price,
    calculate_tokens_out,
    lemma_swap_keeps_product,
    lemma_swap_out_bounds,
    lemma_swap_out_monotonic,
    market_cap_at,
    reported_market_cap,
    reported_price,
    tokens_out,
};
use crate::errors::FuseError;
use crate::events::{GraduationTriggered, TradeEvent};
use crate::fees::{
    fee_split,
    fee_split_fits,
    lemma_net_amount_is_monotonic,
    split_fee,
    FeeSplit,
};
use crate::referral::{
    is_trader,
    referrer_profile_after,
    route_protocol_fee,
    routing,
    routing_error,
    user_profile_after,
    ReferralRouting,
};
use crate::state::{BondingCurve, Pubkey, ReserveSnapshot, UserProfile};

verus! {

/// The records that a buy reads and writes.
#[derive(Clone, Debug, PartialEq, Eq)]
pub struct Buy {
    /// The buyer, who pays.
    pub user: Pubkey,
    /// The curve bought from.
    pub curve_config: BondingCurve,
    /// The asset.
    pub mint: Pubkey,
    /// Where the protocol fee goes.
    pub treasury: Pubkey,
    /// The buyer's profile, if they have one.
    pub user_profile: Option<UserProfile>,
    /// The profile of the referrer named with the trade, if one is.
    pub referrer_profile: Option<UserProfile>,
    /// The wallet of the referrer named with the trade, if one is.
    pub referrer_wallet: Option<Pubkey>,
}

/// What a buy did: the amounts to move, and the records to publish.
#[derive(Clone, Copy, Debug, PartialEq, Eq)]
pub struct BuyReceipt {
    /// The fee on the amount paid and its division.
    pub fees: FeeSplit,
    /// Tokens to move from the curve's vault to the buyer.
    pub tokens_out: u64,
    /// Lamports to move from the buyer to the referrer and to the treasury.
    pub routing: ReferralRouting,
    /// Lamports to move from the buyer to the curve: the net amount and the
    /// creator's fee.
    pub amount_to_curve: u64,
    /// The reserves before the trade.
    pub reserves_before: ReserveSnapshot,
    /// The reserves after the trade.
    pub reserves_after: ReserveSnapshot,
    /// Set where this buy lifted the real SOL reserve to the graduation
    /// threshold.
    pub graduation: Option<GraduationTriggered>,
    /// The trade record.
    pub trade: TradeEvent,
}

/// Whether `now` lies in the protection window of a curve launched at
/// `launch_timestamp`.
pub open spec fn in_protection_window(
    config: ProtocolConfig,
    launch_timestamp: i64,
    now: i64,
) -> bool {
    now - launch_timestamp < config.sniper_protection_duration
}

/// The fee on a buy of `amount_in` lamports.
pub open spec fn buy_fees(config: ProtocolConfig, amount_in: u64) -> FeeSplit {
    fee_split(amount_in, config.fee_basis_points, config.protocol_fee_share)
}

/// The tokens that a buy of `amount_in` lamports hands out.
pub open spec fn buy_tokens_out(
    curve: BondingCurve,
    config: ProtocolConfig,
    amount_in: u64,
) -> int {
    tokens_out(
        curve.virtual_sol_reserves as int,
        curve.virtual_token_reserves as int,
        buy_fees(config, amount_in).net_amount as int,
    )
}

/// Why the curve refuses a buy, or `None` where it does not. The first
/// reason that applies, in this order, is the one given.
pub open spec fn buy_error(
    curve: BondingCurve,
    config: ProtocolConfig,
    now: i64,
    amount_in: u64,
    min_tokens_out: u64,
) -> Option<FuseError> {
    let fees = buy_fees(config, amount_in);
    let out = buy_tokens_out(curve, config, amount_in);
    if curve.complete {
        Some(FuseError::TradingDisabled)
    } else if in_protection_window(config, curve.launch_timestamp, now) && amount_in
        > config.sniper_max_buy_lamports {
        Some(FuseError::SniperLimitExceeded)
    } else if !fee_split_fits(amount_in, config.fee_basis_points, config.protocol_fee_share) {
        Some(FuseError::MathOverflow)
    } else if curve.virtual_sol_reserves + fees.net_amount == 0 {
        Some(FuseError::MathOverflow)
    } else if out < min_tokens_out {
        Some(FuseError::MinTokensNotMet)
    } else if curve.real_token_reserves < out {
        Some(FuseError::InsufficientLiquidity)
    } else if curve.virtual_sol_reserves + fees.net_amount > u64::MAX
        || curve.real_sol_reserves + fees.net_amount > u64::MAX
        || curve.creator_fee_accumulated + fees.creator_fee > u64::MAX {
        Some(FuseError::MathOverflow)
    } else if curve.virtual_token_reserves == out {
        Some(FuseError::MathOverflow)
    } else {
        None
    }
}

/// Why a buy is refused, or `None` where it goes through: for the reason
/// for which the curve refuses it, or else because the referral cannot be
/// booked.
pub open spec fn buy_refusal(
    accounts: Buy,
    config: ProtocolConfig,
    now: i64,
    amount_in: u64,
    min_tokens_out: u64,
) -> Option<FuseError> {
    if buy_error(accounts.curve_config, config, now, amount_in, min_tokens_out) is Some {
        buy_error(accounts.curve_config, config, now, amount_in, min_tokens_out)
    } else {
        routing_error(
            accounts.user,
            accounts.user_profile,
            accounts.referrer_profile,
            accounts.referrer_wallet,
            buy_fees(config, amount_in).protocol_fee,
        )
    }
}

/// The curve after a buy that goes through: the net amount enters both SOL
/// reserves, the tokens leave both token reserves, and the creator's fee is
/// added to what the creator is owed.
pub open spec fn curve_after_buy(
    curve: BondingCurve,
    config: ProtocolConfig,
    amount_in: u64,
) -> BondingCurve {
    let fees = buy_fees(config, amount_in);
    let out = buy_tokens_out(curve, config, amount_in);
    BondingCurve {
        virtual_sol_reserves: (curve.virtual_sol_reserves + fees.net_amount) as u64,
        virtual_token_reserves: (curve.virtual_token_reserves - out) as u64,
        real_sol_reserves: (curve.real_sol_reserves + fees.net_amount) as u64,
        real_token_reserves: (curve.real_token_reserves - out) as u64,
        creator_fee_accumulated: (curve.creator_fee_accumulated + fees.creator_fee) as u64,
        ..curve
    }
}

/// The records after a buy that goes through.
pub open spec fn accounts_after_buy(accounts: Buy, config: ProtocolConfig, amount_in: u64) -> Buy {
    Buy {
        curve_config: curve_after_buy(accounts.curve_config, config, amount_in),
        user_profile: user_profile_after(
            accounts.user,
            accounts.user_profile,
            accounts.referrer_profile,
            accounts.referrer_wallet,
        ),
        referrer_profile: referrer_profile_after(
            accounts.user,
            accounts.user_profile,
            accounts.referrer_profile,
            accounts.referrer_wallet,
            buy_fees(config, amount_in).protocol_fee,
        ),
        ..accounts
    }
}

/// Whether a buy lifts the real SOL reserve from below the graduation
/// threshold to it or above.
pub open spec fn crosses_graduation(
    before: BondingCurve,
    after: BondingCurve,
    config: ProtocolConfig,
) -> bool {
    before.real_sol_reserves < config.graduation_sol_threshold <= after.real_sol_reserves
}

/// The receipt of a buy that goes through.
pub open spec fn buy_receipt(
    accounts: Buy,
    config: ProtocolConfig,
    now: i64,
    amount_in: u64,
) -> BuyReceipt {
    let fees = buy_fees(config, amount_in);
    let before = accounts.curve_config;
    let after = curve_after_buy(before, config, amount_in);
    let cap = reported_market_cap(
        after.virtual_sol_reserves,
        after.virtual_token_reserves,
        after.token_total_supply,
    ) as u64;
    BuyReceipt {
        fees,
        tokens_out: buy_tokens_out(before, config, amount_in) as u64,
        routing: routing(
            accounts.user,
            accounts.user_profile,
            accounts.referrer_profile,
            accounts.referrer_wallet,
            fees.protocol_fee,
        ),
        amount_to_curve: (fees.net_amount + fees.creator_fee) as u64,
        reserves_before: before.reserves(),
        reserves_after: after.reserves(),
        graduation: if crosses_graduation(before, after, config) {
            Some(
                GraduationTriggered {
                    mint: accounts.mint,
                    real_sol_reserves: after.real_sol_reserves,
                    market_cap: cap,
                    timestamp: now,
                },
            )
        } else {
            None
        },
        trade: TradeEvent {
            mint: accounts.mint,
            user: accounts.user,
            is_buy: true,
            sol_amount: fees.net_amount,
            token_amount: buy_tokens_out(before, config, amount_in) as u64,
            price: reported_price(after.virtual_sol_reserves, after.virtual_token_reserves) as u64,
            virtual_sol_reserves: after.virtual_sol_reserves,
            virtual_token_reserves: after.virtual_token_reserves,
            real_sol_reserves: after.real_sol_reserves,
            real_token_reserves: after.real_token_reserves,
            virtual_sol_reserves_before: before.virtual_sol_reserves,
            virtual_token_reserves_before: before.virtual_token_reserves,
            real_sol_reserves_before: before.real_sol_reserves,
            real_token_reserves_before: before.real_token_reserves,
            market_cap_lamports: cap,
            timestamp: now,
        },
    }
}

/// A buy that goes through keeps a well-formed curve well formed, does not
/// lower the product of the pricing counters, and hands out no more tokens
/// than were for sale.
pub proof fn lemma_buy_keeps_curve(
    curve: BondingCurve,
    config: ProtocolConfig,
    now: i64,
    amount_in: u64,
    min_tokens_out: u64,
)
    requires
        buy_error(curve, config, now, amount_in, min_tokens_out) is None,
    ensures
        curve_after_buy(curve, config, amount_in).invariant_product() >= curve.invariant_product(),
        curve.wf() ==> curve_after_buy(curve, config, amount_in).wf(),
        0 <= buy_tokens_out(curve, config, amount_in) <= curve.real_token_reserves,
        buy_tokens_out(curve, config, amount_in) < curve.virtual_token_reserves,
        curve_after_buy(curve, config, amount_in).virtual_token_reserves > 0,
{
    let net = buy_fees(config, amount_in).net_amount as int;
    let vs = curve.virtual_sol_reserves as int;
    let vt = curve.virtual_token_reserves as int;
    lemma_swap_out_bounds(vs, vt, net);
    lemma_swap_keeps_product(vs, vt, net);
}

/// At a fee rate of at most 10000 basis points, whoever pays more lamports
/// is handed no fewer tokens.
pub proof fn lemma_larger_buy_hands_out_no_fewer(
    curve: BondingCurve,
    config: ProtocolConfig,
    smaller: u64,
    larger: u64,
)
    requires
        smaller <= larger,
        config.fee_basis_points <= 10_000,
        fee_split_fits(smaller, config.fee_basis_points, config.protocol_fee_share),
        fee_split_fits(larger, config.fee_basis_points, config.protocol_fee_share),
        curve.virtual_sol_reserves > 0,
    ensures
        buy_tokens_out(curve, config, smaller) <= buy_tokens_out(curve, config, larger),
{
    lemma_net_amount_is_monotonic(smaller, larger, config.fee_basis_points);
    lemma_swap_out_monotonic(
        curve.virtual_sol_reserves as int,
        curve.virtual_token_reserves as int,
        buy_fees(config, smaller).net_amount as int,
        buy_fees(config, larger).net_amount as int,
    );
}

/// The cap on buys holds inside the protection window and nowhere else. On
/// a curve that trades, a buy above the cap is refused with
/// `SniperLimitExceeded` at every time inside the window; from the end of
/// the window on it is never refused for that reason, and whether and why
/// it is refused no longer depends on the time.
pub proof fn lemma_cap_holds_in_the_window_only(
    accounts: Buy,
    config: ProtocolConfig,
    now: i64,
    later: i64,
    amount_in: u64,
    min_tokens_out: u64,
)
    requires
        !accounts.curve_config.complete,
        amount_in > config.sniper_max_buy_lamports,
    ensures
        in_protection_window(config, accounts.curve_config.launch_timestamp, now) ==> buy_refusal(
            accounts,
            config,
            now,
            amount_in,
            min_tokens_out,
        ) == Some(FuseError::SniperLimitExceeded),
        !in_protection_window(config, accounts.curve_config.launch_timestamp, now) ==> buy_refusal(
            accounts,
            config,
            now,
            amount_in,
            min_tokens_out,
        ) != Some(FuseError::SniperLimitExceeded),
        !in_protection_window(config, accounts.curve_config.launch_timestamp, now) && later >= now
            ==> buy_refusal(accounts, config, later, amount_in, min_tokens_out) == buy_refusal(
            accounts,
            config,
            now,
            amount_in,
            min_tokens_out,
        ),
{
}

/// The first buy on a freshly launched curve, worked through: at a fee of
/// 1%, of which 80% are the protocol's, one SOL pays a fee of 0.01 SOL,
/// 0.008 SOL of it the protocol's and 0.002 SOL the creator's, and the
/// remaining 0.99 SOL buy 34 277 831.558567 tokens. With no referrer's
/// profile at hand the whole protocol fee is the treasury's.
pub proof fn lemma_first_buy_of_one_sol(accounts: Buy, config: ProtocolConfig, now: i64)
    requires
        accounts.curve_config.virtual_sol_reserves == 30_000_000_000,
        accounts.curve_config.virtual_token_reserves == 1_073_000_000_000_000,
        accounts.curve_config.real_sol_reserves == 0,
        accounts.curve_config.real_token_reserves == 793_100_000_000_000,
        accounts.curve_config.creator_fee_accumulated == 0,
        !accounts.curve_config.complete,
        accounts.referrer_profile is None,
        config.fee_basis_points == 100,
        config.protocol_fee_share == 80,
        !in_protection_window(config, accounts.curve_config.launch_timestamp, now)
            || config.sniper_max_buy_lamports >= 1_000_000_000,
    ensures
        buy_refusal(accounts, config, now, 1_000_000_000, 0) is None,
        buy_fees(config, 1_000_000_000) == (FeeSplit {
            total_fee: 10_000_000,
            protocol_fee: 8_000_000,
            creator_fee: 2_000_000,
            net_amount: 990_000_000,
        }),
        buy_tokens_out(accounts.curve_config, config, 1_000_000_000) == 34_277_831_558_567,
        curve_after_buy(accounts.curve_config, config, 1_000_000_000).reserves() == (
        ReserveSnapshot {
            virtual_sol_reserves: 30_990_000_000,
            virtual_token_reserves: 1_038_722_168_441_433,
            real_sol_reserves: 990_000_000,
            real_token_reserves: 758_822_168_441_433,
        }),
        curve_after_buy(accounts.curve_config, config, 1_000_000_000).creator_fee_accumulated
            == 2_000_000,
        buy_receipt(accounts, config, now, 1_000_000_000).routing == (ReferralRouting {
            referrer: None,
            referral_fee: 0,
            treasury_fee: 8_000_000,
        }),
{
    assert(fee_split_fits(1_000_000_000, 100, 80));
    assert(fee_split(1_000_000_000, 100, 80).net_amount == 990_000_000);
    assert(fee_split(1_000_000_000, 100, 80).protocol_fee == 8_000_000);
    assert(tokens_out(30_000_000_000, 1_073_000_000_000_000, 990_000_000) == 34_277_831_558_567);
}

/// Buys tokens for `amount_in` lamports from the curve in `accounts`, at
/// the time `now`.
///
/// The buy is refused, and nothing changes, for the first of these reasons
/// that applies: the curve is complete (`TradingDisabled`); the buy is
/// inside the protection window and above the cap (`SniperLimitExceeded`);
/// the fee computation leaves its range, or the SOL counter and the net
/// amount are both zero (`MathOverflow`); the tokens handed out would be
/// fewer than `min_tokens_out` (`MinTokensNotMet`); they would be more than
/// are for sale (`InsufficientLiquidity`); a reserve or the creator's
/// balance would leave its range, or the token counter would be emptied,
/// so that no price is left to report (`MathOverflow`); a referrer is to
/// be paid and their count of referrals or their earnings would leave
/// their range (`MathOverflow`).
///
/// A buy that goes through takes the fee from `amount_in`, prices the rest
/// against the pricing counters, moves the reserves, books the creator's
/// fee, divides the protocol's fee between referrer and treasury, and
/// reports the price after the trade.
pub fn handler(
    accounts: &mut Buy,
    config: &ProtocolConfig,
    now: i64,
    amount_in: u64,
    min_tokens_out: u64,
) -> (r: Result<BuyReceipt, FuseError>)
    ensures
        r is Ok <==> buy_refusal(*old(accounts), *config, now, amount_in, min_tokens_out) is None,
        r matches Err(e) ==> {
            &&& buy_refusal(*old(accounts), *config, now, amount_in, min_tokens_out) == Some(e)
            &&& *final(accounts) == *old(accounts)
        },
        r matches Ok(receipt) ==> {
            let before = old(accounts).curve_config;
            let after = final(accounts).curve_config;
            &&& receipt.fees == fee_split(
                amount_in,
                config.fee_basis_points,
                config.protocol_fee_share,
            )
            &&& receipt.tokens_out == tokens_out(
                before.virtual_sol_reserves as int,
                before.virtual_token_reserves as int,
                receipt.fees.net_amount as int,
            )
            &&& receipt.routing == routing(
                old(accounts).user,
                old(accounts).user_profile,
                old(accounts).referrer_profile,
                old(accounts).referrer_wallet,
                receipt.fees.protocol_fee,
            )
            &&& receipt.routing.referrer matches Some(paid) ==> !is_trader(
                old(accounts).user,
                old(accounts).user_profile,
                paid,
            )
            &&& receipt.amount_to_curve == receipt.fees.net_amount + receipt.fees.creator_fee
            &&& receipt.routing.referral_fee + receipt.routing.treasury_fee
                + receipt.amount_to_curve == amount_in
            &&& after.virtual_sol_reserves == before.virtual_sol_reserves + receipt.fees.net_amount
            &&& after.virtual_token_reserves == before.virtual_token_reserves - receipt.tokens_out
            &&& after.real_sol_reserves == before.real_sol_reserves + receipt.fees.net_amount
            &&& after.real_token_reserves == before.real_token_reserves - receipt.tokens_out
            &&& after.creator_fee_accumulated == before.creator_fee_accumulated
                + receipt.fees.creator_fee
            &&& receipt.trade.price == reported_price(
                after.virtual_sol_reserves,
                after.virtual_token_reserves,
            )
            &&& receipt.trade.market_cap_lamports == reported_market_cap(
                after.virtual_sol_reserves,
                after.virtual_token_reserves,
                after.token_total_supply,
            )
            &&& receipt.graduation is Some <==> before.real_sol_reserves
                < config.graduation_sol_threshold <= after.real_sol_reserves
            &&& receipt == buy_receipt(*old(accounts), *config, now, amount_in)
            &&& *final(accounts) == accounts_after_buy(*old(accounts), *config, amount_in)
        },
        final(accounts).curve_config.invariant_product() >= old(
            accounts,
        ).curve_config.invariant_product(),
        old(accounts).curve_config.wf() ==> final(accounts).curve_config.wf(),
{
    if accounts.curve_config.complete {
        return Err(FuseError::TradingDisabled);
    }
    let elapsed: i128 = (now as i128) - (accounts.curve_config.launch_timestamp as i128);
    if elapsed < (config.sniper_protection_duration as i128) && amount_in
        > config.sniper_max_buy_lamports {
        return Err(FuseError::SniperLimitExceeded);
    }
    let fees: FeeSplit = match split_fee(
        amount_in,
        config.fee_basis_points,
        config.protocol_fee_share,
    ) {
        Ok(fees) => fees,
        Err(e) => {
            return Err(e);
        },
    };
    let tokens: u64 = match calculate_tokens_out(
        accounts.curve_config.virtual_sol_reserves,
        accounts.curve_config.virtual_token_reserves,
        fees.net_amount,
    ) {
        Ok(tokens) => tokens,
        Err(e) => {
            return Err(e);
        },
    };
    if tokens < min_tokens_out {
        return Err(FuseError::MinTokensNotMet);
    }
    if accounts.curve_config.real_token_reserves < tokens {
        return Err(FuseError::InsufficientLiquidity);
    }
    let virtual_sol: u64 = match accounts.curve_config.virtual_sol_reserves.checked_add(
        fees.net_amount,
    ) {
        Some(v) => v,
        None => {
            return Err(FuseError::MathOverflow);
        },
    };
    let real_sol: u64 = match accounts.curve_config.real_sol_reserves.checked_add(fees.net_amount) {
        Some(v) => v,
        None => {
            return Err(FuseError::MathOverflow);
        },
    };
    let creator_fees: u64 = match accounts.curve_config.creator_fee_accumulated.checked_add(
        fees.creator_fee,
    ) {
        Some(v) => v,
        None => {
            return Err(FuseError::MathOverflow);
        },
    };
    proof {
        lemma_swap_out_bounds(
            accounts.curve_config.virtual_sol_reserves as int,
            accounts.curve_config.virtual_token_reserves as int,
            fees.net_amount as int,
        );
    }
    if accounts.curve_config.virtual_token_reserves == tokens {
        return Err(FuseError::MathOverflow);
    }
    proof {
        lemma_buy_keeps_curve(old(accounts).curve_config, *config, now, amount_in, min_tokens_out);
    }
    let user: Pubkey = accounts.user;
    let routing: ReferralRouting = match route_protocol_fee(
        user,
        &mut accounts.user_profile,
        &mut accounts.referrer_profile,
        accounts.referrer_wallet,
        fees.protocol_fee,
    ) {
        Ok(routing) => routing,
        Err(e) => {
            return Err(e);
        },
    };
    let reserves_before: ReserveSnapshot = accounts.curve_config.snapshot();
    let crosses: bool = accounts.curve_config.real_sol_reserves < config.graduation_sol_threshold
        && config.graduation_sol_threshold <= real_sol;

    accounts.curve_config.virtual_sol_reserves = virtual_sol;
    accounts.curve_config.virtual_token_reserves = accounts.curve_config.virtual_token_reserves
        - tokens;
    accounts.curve_config.real_sol_reserves = real_sol;
    accounts.curve_config.real_token_reserves = accounts.curve_config.real_token_reserves - tokens;
    accounts.curve_config.creator_fee_accumulated = creator_fees;

    let price: u64 = calculate_current_price(
        accounts.curve_config.virtual_sol_reserves,
        accounts.curve_config.virtual_token_reserves,
    );
    let cap: u64 = market_cap_at(price, accounts.curve_config.token_total_supply);
    let graduation: Option<GraduationTriggered> = if crosses {
        Some(
            GraduationTriggered {
                mint: accounts.mint,
                real_sol_reserves: real_sol,
                market_cap: cap,
                timestamp: now,
            },
        )
    } else {
        None
    };
    Ok(
        BuyReceipt {
            fees,
            tokens_out: tokens,
            routing,
            amount_to_curve: fees.net_amount + fees.creator_fee,
            reserves_before,
            reserves_after: accounts.curve_config.snapshot(),
            graduation,
            trade: TradeEvent {
                mint: accounts.mint,
                user: accounts.user,
                is_buy: true,
                sol_amount: fees.net_amount,
                token_amount: tokens,
                price,
                virtual_sol_reserves: accounts.curve_config.virtual_sol_reserves,
                virtual_token_reserves: accounts.curve_config.virtual_token_reserves,
                real_sol_reserves: accounts.curve_config.real_sol_reserves,
                real_token_reserves: accounts.curve_config.real_token_reserves,
                virtual_sol_reserves_before: reserves_before.virtual_sol_reserves,
                virtual_token_reserves_before: reserves_before.virtual_token_reserves,
                real_sol_reserves_before: reserves_before.real_sol_reserves,
                real_token_reserves_before: reserves_before.real_token_reserves,
                market_cap_lamports: cap,
                timestamp: now,
            },
        },
    )
}

} // verus!
