//! Selling tokens back to a curve.

use vstd::prelude::*;
use crate::config::ProtocolConfig;
use crate::curve::{
    calculate_current_price,
    calculate_sol_out,
    lemma_swap_keeps_product,
    lemma_swap_out_bounds,
    lemma_swap_out_monotonic,
    lemma_swap_round_trip,
    market_cap_at,
    reported_market_cap,
    reported_price,
    sol_out,
};
use crate::errors::FuseError;
use crate::events::TradeEvent;
use crate::fees::{
    fee_split,
    fee_split_fits,
    lemma_net_amount_is_monotonic,
    split_fee,
    FeeSplit,
};
use crate::instructions::buy::{
    buy_error,
    buy_fees,
    buy_tokens_out,
    curve_after_buy,
    lemma_buy_keeps_curve,
};
use crate::referral::{
    is_trader,
    referrer_profile_after,
    route_protocol_fee,
    routing,
    routing_error,
    user_profile_after,
    ReferralRouting,
};
use crate::state::{BondingCurve, Pubkey, ReserveSnapshot, UserProfile};

verus! {

/// The records that a sell reads and writes.
#[derive(Clone, Debug, PartialEq, Eq)]
pub struct Sell {
    /// The seller, who is paid.
    pub user: Pubkey,
    /// The curve sold to.
    pub curve_config: BondingCurve,
    /// The asset.
    pub mint: Pubkey,
    /// Where the protocol fee goes.
    pub treasury: Pubkey,
    /// The seller's profile, if they have one.
    pub user_profile: Option<UserProfile>,
    /// The profile of the referrer named with the trade, if one is.
    pub referrer_profile: Option<UserProfile>,
    /// The wallet of the referrer named with the trade, if one is.
    pub referrer_wallet: Option<Pubkey>,
}

/// What a sell did: the amounts to move, and the record to publish.
#[derive(Clone, Copy, Debug, PartialEq, Eq)]
pub struct SellReceipt {
    /// Tokens to move from the seller to the curve's vault.
    pub tokens_in: u64,
    /// Lamports that leave the pricing counter.
    pub sol_out: u64,
    /// The fee on `sol_out` and its division. The creator's part stays with
    /// the curve.
    pub fees: FeeSplit,
    /// Lamports to move from the curve to the seller: `sol_out` less the fee.
    pub user_receives: u64,
    /// Lamports to move from the curve to the referrer and to the treasury.
    pub routing: ReferralRouting,
    /// The reserves before the trade.
    pub reserves_before: ReserveSnapshot,
    /// The reserves after the trade.
    pub reserves_after: ReserveSnapshot,
    /// The trade record.
    pub trade: TradeEvent,
}

/// The lamports that leave the pricing counter for `amount_in` tokens.
pub open spec fn sell_sol_out(curve: BondingCurve, amount_in: u64) -> int {
    sol_out(
        curve.virtual_sol_reserves as int,
        curve.virtual_token_reserves as int,
        amount_in as int,
    )
}

/// The fee on a sell of `amount_in` tokens: the fee on the lamports that
/// leave the pricing counter.
pub open spec fn sell_fees(
    curve: BondingCurve,
    config: ProtocolConfig,
    amount_in: u64,
) -> FeeSplit {
    fee_split(
        sell_sol_out(curve, amount_in) as u64,
        config.fee_basis_points,
        config.protocol_fee_share,
    )
}

/// Why the curve refuses a sell, or `None` where it does not. The first
/// reason that applies, in this order, is the one given.
pub open spec fn sell_error(
    curve: BondingCurve,
    config: ProtocolConfig,
    amount_in: u64,
    min_sol_out: u64,
) -> Option<FuseError> {
    let out = sell_sol_out(curve, amount_in);
    let fees = sell_fees(curve, config, amount_in);
    if curve.complete {
        Some(FuseError::TradingDisabled)
    } else if curve.virtual_token_reserves + amount_in == 0 {
        Some(FuseError::MathOverflow)
    } else if curve.real_sol_reserves < out {
        Some(FuseError::InsufficientLiquidity)
    } else if !fee_split_fits(out as u64, config.fee_basis_points, config.protocol_fee_share) {
        Some(FuseError::MathOverflow)
    } else if fees.net_amount < min_sol_out {
        Some(FuseError::SlippageExceeded)
    } else if curve.virtual_token_reserves + amount_in > u64::MAX
        || curve.real_token_reserves + amount_in > u64::MAX
        || curve.creator_fee_accumulated + fees.creator_fee > u64::MAX {
        Some(FuseError::MathOverflow)
    } else {
        None
    }
}

/// Why a sell is refused, or `None` where it goes through: for the reason
/// for which the curve refuses it, or else because the referral cannot be
/// booked.
pub open spec fn sell_refusal(
    accounts: Sell,
    config: ProtocolConfig,
    amount_in: u64,
    min_sol_out: u64,
) -> Option<FuseError> {
    if sell_error(accounts.curve_config, config, amount_in, min_sol_out) is Some {
        sell_error(accounts.curve_config, config, amount_in, min_sol_out)
    } else {
        routing_error(
            accounts.user,
            accounts.user_profile,
            accounts.referrer_profile,
            accounts.referrer_wallet,
            sell_fees(accounts.curve_config, config, amount_in).protocol_fee,
        )
    }
}

/// The curve after a sell that goes through: the lamports leave both SOL
/// reserves, the tokens enter both token reserves, and the creator's fee is
/// added to what the creator is owed.
pub open spec fn curve_after_sell(
    curve: BondingCurve,
    config: ProtocolConfig,
    amount_in: u64,
) -> BondingCurve {
    let out = sell_sol_out(curve, amount_in);
    let fees = sell_fees(curve, config, amount_in);
    BondingCurve {
        virtual_sol_reserves: (curve.virtual_sol_reserves - out) as u64,
        virtual_token_reserves: (curve.virtual_token_reserves + amount_in) as u64,
        real_sol_reserves: (curve.real_sol_reserves - out) as u64,
        real_token_reserves: (curve.real_token_reserves + amount_in) as u64,
        creator_fee_accumulated: (curve.creator_fee_accumulated + fees.creator_fee) as u64,
        ..curve
    }
}

/// The records after a sell that goes through.
pub open spec fn accounts_after_sell(
    accounts: Sell,
    config: ProtocolConfig,
    amount_in: u64,
) -> Sell {
    Sell {
        curve_config: curve_after_sell(accounts.curve_config, config, amount_in),
        user_profile: user_profile_after(
            accounts.user,
            accounts.user_profile,
            accounts.referrer_profile,
            accounts.referrer_wallet,
        ),
        referrer_profile: referrer_profile_after(
            accounts.user,
            accounts.user_profile,
            accounts.referrer_profile,
            accounts.referrer_wallet,
            sell_fees(accounts.curve_config, config, amount_in).protocol_fee,
        ),
        ..accounts
    }
}

/// The receipt of a sell that goes through.
pub open spec fn sell_receipt(
    accounts: Sell,
    config: ProtocolConfig,
    now: i64,
    amount_in: u64,
) -> SellReceipt {
    let before = accounts.curve_config;
    let fees = sell_fees(before, config, amount_in);
    let after = curve_after_sell(before, config, amount_in);
    SellReceipt {
        tokens_in: amount_in,
        sol_out: sell_sol_out(before, amount_in) as u64,
        fees,
        user_receives: fees.net_amount,
        routing: routing(
            accounts.user,
            accounts.user_profile,
            accounts.referrer_profile,
            accounts.referrer_wallet,
            fees.protocol_fee,
        ),
        reserves_before: before.reserves(),
        reserves_after: after.reserves(),
        trade: TradeEvent {
            mint: accounts.mint,
            user: accounts.user,
            is_buy: false,
            sol_amount: sell_sol_out(before, amount_in) as u64,
            token_amount: amount_in,
            price: reported_price(after.virtual_sol_reserves, after.virtual_token_reserves) as u64,
            virtual_sol_reserves: after.virtual_sol_reserves,
            virtual_token_reserves: after.virtual_token_reserves,
            real_sol_reserves: after.real_sol_reserves,
            real_token_reserves: after.real_token_reserves,
            virtual_sol_reserves_before: before.virtual_sol_reserves,
            virtual_token_reserves_before: before.virtual_token_reserves,
            real_sol_reserves_before: before.real_sol_reserves,
            real_token_reserves_before: before.real_token_reserves,
            market_cap_lamports: reported_market_cap(
                after.virtual_sol_reserves,
                after.virtual_token_reserves,
                after.token_total_supply,
            ) as u64,
            timestamp: now,
        },
    }
}

/// A sell that goes through keeps a well-formed curve well formed, does not
/// lower the product of the pricing counters, and pays out no more lamports
/// than the curve has raised.
pub proof fn lemma_sell_keeps_curve(
    curve: BondingCurve,
    config: ProtocolConfig,
    amount_in: u64,
    min_sol_out: u64,
)
    requires
        sell_error(curve, config, amount_in, min_sol_out) is None,
    ensures
        curve_after_sell(curve, config, amount_in).invariant_product() >= curve.invariant_product(),
        curve.wf() ==> curve_after_sell(curve, config, amount_in).wf(),
        0 <= sell_sol_out(curve, amount_in) <= curve.real_sol_reserves,
        sell_sol_out(curve, amount_in) <= curve.virtual_sol_reserves,
        curve_after_sell(curve, config, amount_in).virtual_token_reserves > 0,
{
    let vs = curve.virtual_sol_reserves as int;
    let vt = curve.virtual_token_reserves as int;
    lemma_swap_out_bounds(vt, vs, amount_in as int);
    lemma_swap_keeps_product(vt, vs, amount_in as int);
    let out = sell_sol_out(curve, amount_in);
    assert((vs - out) * (vt + amount_in) == (vt + amount_in) * (vs - out)) by (nonlinear_arith);
    assert(vs * vt == vt * vs) by (nonlinear_arith);
}

/// Whoever hands in more tokens gets no fewer lamports out of the pricing
/// counter and, at a fee rate of at most 10000 basis points, receives no
/// fewer.
pub proof fn lemma_larger_sell_pays_no_less(
    curve: BondingCurve,
    config: ProtocolConfig,
    smaller: u64,
    larger: u64,
)
    requires
        smaller <= larger,
        config.fee_basis_points <= 10_000,
        curve.virtual_token_reserves > 0,
        sell_sol_out(curve, larger) <= u64::MAX,
    ensures
        0 <= sell_sol_out(curve, smaller) <= sell_sol_out(curve, larger),
        sell_fees(curve, config, smaller).net_amount <= sell_fees(curve, config, larger).net_amount,
{
    lemma_swap_out_bounds(
        curve.virtual_token_reserves as int,
        curve.virtual_sol_reserves as int,
        smaller as int,
    );
    lemma_swap_out_monotonic(
        curve.virtual_token_reserves as int,
        curve.virtual_sol_reserves as int,
        smaller as int,
        larger as int,
    );
    lemma_net_amount_is_monotonic(
        sell_sol_out(curve, smaller) as u64,
        sell_sol_out(curve, larger) as u64,
        config.fee_basis_points,
    );
}

/// Whoever buys and at once sells what they bought, with nobody trading in
/// between, is paid no more than they spent: the lamports that leave the
/// pricing counter are no more than the net amount that entered it, and the
/// seller receives no more than the buyer paid.
pub proof fn lemma_round_trip_returns_at_most_spent(
    curve: BondingCurve,
    config: ProtocolConfig,
    now: i64,
    amount_in: u64,
    min_tokens_out: u64,
    min_sol_out: u64,
)
    requires
        buy_error(curve, config, now, amount_in, min_tokens_out) is None,
        sell_error(
            curve_after_buy(curve, config, amount_in),
            config,
            buy_tokens_out(curve, config, amount_in) as u64,
            min_sol_out,
        ) is None,
    ensures
        ({
            let bought = buy_tokens_out(curve, config, amount_in) as u64;
            let after = curve_after_buy(curve, config, amount_in);
            &&& sell_sol_out(after, bought) <= buy_fees(config, amount_in).net_amount
            &&& sell_fees(after, config, bought).net_amount <= amount_in
        }),
{
    lemma_buy_keeps_curve(curve, config, now, amount_in, min_tokens_out);
    let net = buy_fees(config, amount_in).net_amount as int;
    let vs = curve.virtual_sol_reserves as int;
    let vt = curve.virtual_token_reserves as int;
    lemma_swap_round_trip(vs, vt, net);
    let after = curve_after_buy(curve, config, amount_in);
    let bought = buy_tokens_out(curve, config, amount_in) as u64;
    lemma_sell_keeps_curve(after, config, bought, min_sol_out);
}

/// Sells `amount_in` tokens to the curve in `accounts`, at the time `now`.
///
/// The sell is refused, and nothing changes, for the first of these reasons
/// that applies: the curve is complete (`TradingDisabled`); the token
/// counter and `amount_in` are both zero (`MathOverflow`); the lamports that
/// leave the pricing counter would be more than the curve has raised
/// (`InsufficientLiquidity`); the fee computation leaves its range
/// (`MathOverflow`); the seller would receive less than `min_sol_out`
/// (`SlippageExceeded`); a reserve or the creator's balance would leave its
/// range (`MathOverflow`); a referrer is to be paid and their count of
/// referrals or their earnings would leave their range (`MathOverflow`).
///
/// A sell that goes through prices `amount_in` against the pricing
/// counters, takes the fee from the lamports that this yields, moves the
/// reserves, books the creator's fee, divides the protocol's fee between
/// referrer and treasury, and reports the price after the trade.
pub fn handler(
    accounts: &mut Sell,
    config: &ProtocolConfig,
    now: i64,
    amount_in: u64,
    min_sol_out: u64,
) -> (r:
    Result<SellReceipt, FuseError>)
    ensures
        r is Ok <==> sell_refusal(*old(accounts), *config, amount_in, min_sol_out) is None,
        r matches Err(e) ==> {
            &&& sell_refusal(*old(accounts), *config, amount_in, min_sol_out) == Some(e)
            &&& *final(accounts) == *old(accounts)
        },
        r matches Ok(receipt) ==> {
            let before = old(accounts).curve_config;
            let after = final(accounts).curve_config;
            &&& receipt.tokens_in == amount_in
            &&& receipt.sol_out == sol_out(
                before.virtual_sol_reserves as int,
                before.virtual_token_reserves as int,
                amount_in as int,
            )
            &&& receipt.fees == fee_split(
                receipt.sol_out,
                config.fee_basis_points,
                config.protocol_fee_share,
            )
            &&& receipt.user_receives == receipt.sol_out - receipt.fees.total_fee
            &&& receipt.routing == routing(
                old(accounts).user,
                old(accounts).user_profile,
                old(accounts).referrer_profile,
                old(accounts).referrer_wallet,
                receipt.fees.protocol_fee,
            )
            &&& receipt.routing.referrer matches Some(paid) ==> !is_trader(
                old(accounts).user,
                old(accounts).user_profile,
                paid,
            )
            &&& receipt.user_receives + receipt.routing.referral_fee
                + receipt.routing.treasury_fee + receipt.fees.creator_fee == receipt.sol_out
            &&& after.virtual_sol_reserves == before.virtual_sol_reserves - receipt.sol_out
            &&& after.virtual_token_reserves == before.virtual_token_reserves + amount_in
            &&& after.real_sol_reserves == before.real_sol_reserves - receipt.sol_out
            &&& after.real_token_reserves == before.real_token_reserves + amount_in
            &&& after.creator_fee_accumulated == before.creator_fee_accumulated
                + receipt.fees.creator_fee
            &&& receipt.trade.price == reported_price(
                after.virtual_sol_reserves,
                after.virtual_token_reserves,
            )
            &&& receipt.trade.market_cap_lamports == reported_market_cap(
                after.virtual_sol_reserves,
                after.virtual_token_reserves,
                after.token_total_supply,
            )
            &&& receipt == sell_receipt(*old(accounts), *config, now, amount_in)
            &&& *final(accounts) == accounts_after_sell(*old(accounts), *config, amount_in)
        },
        final(accounts).curve_config.invariant_product() >= old(
            accounts,
        ).curve_config.invariant_product(),
        old(accounts).curve_config.wf() ==> final(accounts).curve_config.wf(),
{
    if accounts.curve_config.complete {
        return Err(FuseError::TradingDisabled);
    }
    let lamports: u64 = match calculate_sol_out(
        accounts.curve_config.virtual_sol_reserves,
        accounts.curve_config.virtual_token_reserves,
        amount_in,
    ) {
        Ok(lamports) => lamports,
        Err(e) => {
            return Err(e);
        },
    };
    if accounts.curve_config.real_sol_reserves < lamports {
        return Err(FuseError::InsufficientLiquidity);
    }
    let fees: FeeSplit = match split_fee(
        lamports,
        config.fee_basis_points,
        config.protocol_fee_share,
    ) {
        Ok(fees) => fees,
        Err(e) => {
            return Err(e);
        },
    };
    if fees.net_amount < min_sol_out {
        return Err(FuseError::SlippageExceeded);
    }
    let virtual_token: u64 = match accounts.curve_config.virtual_token_reserves.checked_add(
        amount_in,
    ) {
        Some(v) => v,
        None => {
            return Err(FuseError::MathOverflow);
        },
    };
    let real_token: u64 = match accounts.curve_config.real_token_reserves.checked_add(amount_in) {
        Some(v) => v,
        None => {
            return Err(FuseError::MathOverflow);
        },
    };
    let creator_fees: u64 = match accounts.curve_config.creator_fee_accumulated.checked_add(
        fees.creator_fee,
    ) {
        Some(v) => v,
        None => {
            return Err(FuseError::MathOverflow);
        },
    };
    proof {
        lemma_sell_keeps_curve(old(accounts).curve_config, *config, amount_in, min_sol_out);
    }
    let user: Pubkey = accounts.user;
    let routing: ReferralRouting = match route_protocol_fee(
        user,
        &mut accounts.user_profile,
        &mut accounts.referrer_profile,
        accounts.referrer_wallet,
        fees.protocol_fee,
    ) {
        Ok(routing) => routing,
        Err(e) => {
            return Err(e);
        },
    };
    let reserves_before: ReserveSnapshot = accounts.curve_config.snapshot();

    accounts.curve_config.virtual_sol_reserves = accounts.curve_config.virtual_sol_reserves
        - lamports;
    accounts.curve_config.virtual_token_reserves = virtual_token;
    accounts.curve_config.real_sol_reserves = accounts.curve_config.real_sol_reserves - lamports;
    accounts.curve_config.real_token_reserves = real_token;
    accounts.curve_config.creator_fee_accumulated = creator_fees;

    let price: u64 = calculate_current_price(
        accounts.curve_config.virtual_sol_reserves,
        accounts.curve_config.virtual_token_reserves,
    );
    let cap: u64 = market_cap_at(price, accounts.curve_config.token_total_supply);
    Ok(
        SellReceipt {
            tokens_in: amount_in,
            sol_out: lamports,
            fees,
            user_receives: fees.net_amount,
            routing,
            reserves_before,
            reserves_after: accounts.curve_config.snapshot(),
            trade: TradeEvent {
                mint: accounts.mint,
                user: accounts.user,
                is_buy: false,
                sol_amount: lamports,
                token_amount: amount_in,
                price,
                virtual_sol_reserves: accounts.curve_config.virtual_sol_reserves,
                virtual_token_reserves: accounts.curve_config.virtual_token_reserves,
                real_sol_reserves: accounts.curve_config.real_sol_reserves,
                real_token_reserves: accounts.curve_config.real_token_reserves,
                virtual_sol_reserves_before: reserves_before.virtual_sol_reserves,
                virtual_token_reserves_before: reserves_before.virtual_token_reserves,
                real_sol_reserves_before: reserves_before.real_sol_reserves,
                real_token_reserves_before: reserves_before.real_token_reserves,
                market_cap_lamports: cap,
                timestamp: now,
            },
        },
    )
}

} // verus!
