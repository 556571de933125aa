use fuse::config::ProtocolConfig;
use fuse::constants::{
    REAL_TOKEN_RESERVES, TOTAL_SUPPLY, VIRTUAL_SOL_RESERVES, VIRTUAL_TOKEN_RESERVES,
};
use fuse::errors::FuseError;
use fuse::events::{GraduationTriggered, TradeEvent};
use fuse::instructions::buy::{handler as buy_handler, Buy};
use fuse::instructions::sell::{handler as sell_handler, Sell};
use fuse::state::{BondingCurve, Pubkey, ReserveSnapshot, UserProfile};

fn key(n: u8) -> Pubkey {
    Pubkey::new_from_array([n; 32])
}

fn config() -> ProtocolConfig {
    ProtocolConfig::standard(60, 2_000_000_000)
}

fn fresh_curve(launch: i64) -> BondingCurve {
    BondingCurve {
        creator: key(1),
        token_mint: key(2),
        token_total_supply: TOTAL_SUPPLY,
        virtual_sol_reserves: VIRTUAL_SOL_RESERVES,
        virtual_token_reserves: VIRTUAL_TOKEN_RESERVES,
        real_sol_reserves: 0,
        real_token_reserves: REAL_TOKEN_RESERVES,
        complete: false,
        bump: 254,
        creator_fee_accumulated: 0,
        launch_timestamp: launch,
        name: String::from("Fuse"),
        symbol: String::from("FUSE"),
        uri: String::from("https://example.org/fuse.json"),
    }
}

fn buy_accounts(curve: BondingCurve) -> Buy {
    Buy {
        user: key(3),
        curve_config: curve,
        mint: key(2),
        treasury: key(4),
        user_profile: None,
        referrer_profile: None,
        referrer_wallet: None,
    }
}

fn sell_accounts(curve: BondingCurve) -> Sell {
    Sell {
        user: key(3),
        curve_config: curve,
        mint: key(2),
        treasury: key(4),
        user_profile: None,
        referrer_profile: None,
        referrer_wallet: None,
    }
}

fn profile(owner: u8, name: &str, referrer: Option<Pubkey>) -> UserProfile {
    UserProfile {
        authority: key(owner),
        username: String::from(name),
        referrer,
        referral_count: 0,
        total_referral_fees: 0,
        bump: 255,
    }
}

fn product(curve: &BondingCurve) -> u128 {
    (curve.virtual_sol_reserves as u128) * (curve.virtual_token_reserves as u128)
}

#[test]
fn buy_of_one_sol_on_a_fresh_curve() {
    let mut accounts = buy_accounts(fresh_curve(0));
    let receipt = buy_handler(&mut accounts, &config(), 1_000, 1_000_000_000, 0).unwrap();
    assert_eq!(receipt.fees.total_fee, 10_000_000);
    assert_eq!(receipt.fees.protocol_fee, 8_000_000);
    assert_eq!(receipt.fees.creator_fee, 2_000_000);
    assert_eq!(receipt.fees.net_amount, 990_000_000);
    assert_eq!(
        receipt.tokens_out as u128,
        1_073_000_000_000_000u128 * 990_000_000 / (30_000_000_000 + 990_000_000)
    );
    assert_eq!(receipt.tokens_out, 34_277_831_558_567);
    assert_eq!(accounts.curve_config.virtual_sol_reserves, 30_990_000_000);
    assert_eq!(accounts.curve_config.virtual_token_reserves, 1_038_722_168_441_433);
    assert_eq!(accounts.curve_config.real_sol_reserves, 990_000_000);
    assert_eq!(accounts.curve_config.real_token_reserves, 758_822_168_441_433);
    assert_eq!(accounts.curve_config.creator_fee_accumulated, 2_000_000);
    assert_eq!(receipt.routing.treasury_fee, 8_000_000);
    assert_eq!(receipt.routing.referral_fee, 0);
    assert_eq!(receipt.routing.referrer, None);
    assert_eq!(receipt.amount_to_curve, 992_000_000);
    assert_eq!(receipt.graduation, None);
}

#[test]
fn buy_receipt_carries_both_snapshots_and_the_trade_record() {
    let mut accounts = buy_accounts(fresh_curve(0));
    let receipt = buy_handler(&mut accounts, &config(), 1_000, 1_000_000_000, 0).unwrap();
    assert_eq!(
        receipt.reserves_before,
        ReserveSnapshot {
            virtual_sol_reserves: 30_000_000_000,
            virtual_token_reserves: 1_073_000_000_000_000,
            real_sol_reserves: 0,
            real_token_reserves: 793_100_000_000_000,
        }
    );
    assert_eq!(
        receipt.reserves_after,
        ReserveSnapshot {
            virtual_sol_reserves: 30_990_000_000,
            virtual_token_reserves: 1_038_722_168_441_433,
            real_sol_reserves: 990_000_000,
            real_token_reserves: 758_822_168_441_433,
        }
    );
    assert_eq!(
        receipt.trade,
        TradeEvent {
            mint: key(2),
            user: key(3),
            is_buy: true,
            sol_amount: 990_000_000,
            token_amount: 34_277_831_558_567,
            price: 29,
            virtual_sol_reserves: 30_990_000_000,
            virtual_token_reserves: 1_038_722_168_441_433,
            real_sol_reserves: 990_000_000,
            real_token_reserves: 758_822_168_441_433,
            virtual_sol_reserves_before: 30_000_000_000,
            virtual_token_reserves_before: 1_073_000_000_000_000,
            real_sol_reserves_before: 0,
            real_token_reserves_before: 793_100_000_000_000,
            market_cap_lamports: 29_000_000_000,
            timestamp: 1_000,
        }
    );
}

#[test]
fn sniper_cap_holds_inside_the_window_only() {
    let mut accounts = buy_accounts(fresh_curve(1_000));
    let before = accounts.clone();
    let inside = buy_handler(&mut accounts, &config(), 1_059, 2_000_000_001, 0);
    assert_eq!(inside, Err(FuseError::SniperLimitExceeded));
    assert_eq!(accounts, before);
    let after = buy_handler(&mut accounts, &config(), 1_061, 2_000_000_001, 0).unwrap();
    assert_eq!(after.tokens_out, 66_433_395_903_895);
}

#[test]
fn sniper_window_closes_at_its_last_second() {
    let mut accounts = buy_accounts(fresh_curve(1_000));
    assert_eq!(
        buy_handler(&mut accounts, &config(), 1_000, 2_000_000_001, 0),
        Err(FuseError::SniperLimitExceeded)
    );
    assert!(buy_handler(&mut accounts, &config(), 1_060, 2_000_000_001, 0).is_ok());
}

#[test]
fn buy_at_the_cap_passes_inside_the_window() {
    let mut accounts = buy_accounts(fresh_curve(1_000));
    assert!(buy_handler(&mut accounts, &config(), 1_001, 2_000_000_000, 0).is_ok());
}

#[test]
fn sniper_window_is_measured_without_wrapping() {
    let mut accounts = buy_accounts(fresh_curve(i64::MIN));
    assert!(buy_handler(&mut accounts, &config(), i64::MAX, 2_000_000_001, 0).is_ok());
    let mut accounts = buy_accounts(fresh_curve(i64::MAX));
    assert_eq!(
        buy_handler(&mut accounts, &config(), i64::MIN, 2_000_000_001, 0),
        Err(FuseError::SniperLimitExceeded)
    );
}

#[test]
fn buy_on_a_completed_curve_is_refused() {
    let mut curve = fresh_curve(0);
    curve.complete = true;
    curve.real_sol_reserves = 0;
    curve.real_token_reserves = 0;
    let mut accounts = buy_accounts(curve);
    let before = accounts.clone();
    assert_eq!(
        buy_handler(&mut accounts, &config(), 1_000, 1_000_000_000, 0),
        Err(FuseError::TradingDisabled)
    );
    assert_eq!(accounts, before);
}

#[test]
fn buy_below_the_minimum_is_refused() {
    let mut accounts = buy_accounts(fresh_curve(0));
    let before = accounts.clone();
    assert_eq!(
        buy_handler(&mut accounts, &config(), 1_000, 1_000_000_000, 34_277_831_558_568),
        Err(FuseError::MinTokensNotMet)
    );
    assert_eq!(accounts, before);
    assert!(buy_handler(&mut accounts, &config(), 1_000, 1_000_000_000, 34_277_831_558_567).is_ok());
}

#[test]
fn buy_of_more_than_is_for_sale_is_refused() {
    let mut accounts = buy_accounts(fresh_curve(0));
    let before = accounts.clone();
    assert_eq!(
        buy_handler(&mut accounts, &config(), 1_000, 86_000_000_000, 0),
        Err(FuseError::InsufficientLiquidity)
    );
    assert_eq!(accounts, before);
}

#[test]
fn buy_whose_fee_leaves_the_range_is_refused() {
    let mut accounts = buy_accounts(fresh_curve(0));
    let before = accounts.clone();
    assert_eq!(
        buy_handler(&mut accounts, &config(), 1_000, 184_467_440_737_095_517, 0),
        Err(FuseError::MathOverflow)
    );
    assert_eq!(accounts, before);
}

#[test]
fn buy_that_lifts_a_counter_out_of_range_is_refused() {
    let mut curve = fresh_curve(0);
    curve.virtual_sol_reserves = u64::MAX - 10;
    let mut accounts = buy_accounts(curve);
    let before = accounts.clone();
    assert_eq!(
        buy_handler(&mut accounts, &config(), 1_000, 1_000, 0),
        Err(FuseError::MathOverflow)
    );
    assert_eq!(accounts, before);
}

#[test]
fn buy_from_an_empty_token_counter_is_refused() {
    let mut curve = fresh_curve(0);
    curve.virtual_token_reserves = 0;
    curve.real_token_reserves = 0;
    let mut accounts = buy_accounts(curve);
    let before = accounts.clone();
    assert_eq!(
        buy_handler(&mut accounts, &config(), 1_000, 1_000_000, 0),
        Err(FuseError::MathOverflow)
    );
    assert_eq!(accounts, before);
}

#[test]
fn buy_of_nothing_moves_nothing() {
    let mut accounts = buy_accounts(fresh_curve(0));
    let before = accounts.clone();
    let receipt = buy_handler(&mut accounts, &config(), 1_000, 0, 0).unwrap();
    assert_eq!(receipt.tokens_out, 0);
    assert_eq!(receipt.amount_to_curve, 0);
    assert_eq!(receipt.trade.price, 27);
    assert_eq!(accounts, before);
}

#[test]
fn buy_pays_a_bound_referrer_a_tenth_of_the_protocol_fee() {
    let mut accounts = buy_accounts(fresh_curve(0));
    accounts.user_profile = Some(profile(3, "trader", Some(key(9))));
    accounts.referrer_profile = Some(profile(9, "friend", None));
    accounts.referrer_wallet = Some(key(9));
    let receipt = buy_handler(&mut accounts, &config(), 1_000, 1_000_000_000, 0).unwrap();
    assert_eq!(receipt.routing.referrer, Some(key(9)));
    assert_eq!(receipt.routing.referral_fee, 800_000);
    assert_eq!(receipt.routing.treasury_fee, 7_200_000);
    assert_eq!(receipt.amount_to_curve, 992_000_000);
    let referrer = accounts.referrer_profile.unwrap();
    assert_eq!(referrer.total_referral_fees, 800_000);
    assert_eq!(referrer.referral_count, 0);
    assert_eq!(accounts.user_profile.unwrap().referrer, Some(key(9)));
}

#[test]
fn first_trade_with_a_referrer_binds_the_trader() {
    let mut accounts = buy_accounts(fresh_curve(0));
    accounts.user_profile = Some(profile(3, "trader", None));
    accounts.referrer_profile = Some(profile(9, "friend", None));
    accounts.referrer_wallet = Some(key(9));
    let receipt = buy_handler(&mut accounts, &config(), 1_000, 1_000_000_000, 0).unwrap();
    assert_eq!(receipt.routing.referrer, Some(key(9)));
    assert_eq!(receipt.routing.referral_fee, 800_000);
    assert_eq!(accounts.user_profile.clone().unwrap().referrer, Some(key(9)));
    let referrer = accounts.referrer_profile.clone().unwrap();
    assert_eq!(referrer.referral_count, 1);
    assert_eq!(referrer.total_referral_fees, 800_000);

    accounts.referrer_profile = Some(profile(8, "other", None));
    accounts.referrer_wallet = Some(key(8));
    let second = buy_handler(&mut accounts, &config(), 1_100, 1_000_000_000, 0).unwrap();
    assert_eq!(second.routing.referrer, None);
    assert_eq!(second.routing.referral_fee, 0);
    assert_eq!(second.routing.treasury_fee, 8_000_000);
    assert_eq!(accounts.user_profile.unwrap().referrer, Some(key(9)));
    assert_eq!(accounts.referrer_profile.unwrap(), profile(8, "other", None));
}

#[test]
fn referrer_without_matching_wallet_is_not_paid() {
    let mut accounts = buy_accounts(fresh_curve(0));
    accounts.user_profile = Some(profile(3, "trader", None));
    accounts.referrer_profile = Some(profile(9, "friend", None));
    accounts.referrer_wallet = Some(key(8));
    let receipt = buy_handler(&mut accounts, &config(), 1_000, 1_000_000_000, 0).unwrap();
    assert_eq!(receipt.routing.referrer, None);
    assert_eq!(receipt.routing.treasury_fee, 8_000_000);
    assert_eq!(accounts.user_profile.unwrap().referrer, None);
    assert_eq!(accounts.referrer_profile.unwrap(), profile(9, "friend", None));

    let mut accounts = buy_accounts(fresh_curve(0));
    accounts.referrer_profile = Some(profile(9, "friend", None));
    let receipt = buy_handler(&mut accounts, &config(), 1_000, 1_000_000_000, 0).unwrap();
    assert_eq!(receipt.routing.referrer, None);
    assert_eq!(receipt.routing.treasury_fee, 8_000_000);
}

#[test]
fn trader_without_a_profile_still_earns_the_referrer_a_share() {
    let mut accounts = buy_accounts(fresh_curve(0));
    accounts.referrer_profile = Some(profile(9, "friend", None));
    accounts.referrer_wallet = Some(key(9));
    let receipt = buy_handler(&mut accounts, &config(), 1_000, 1_000_000_000, 0).unwrap();
    assert_eq!(receipt.routing.referrer, Some(key(9)));
    assert_eq!(receipt.routing.referral_fee, 800_000);
    assert_eq!(accounts.user_profile, None);
    let referrer = accounts.referrer_profile.unwrap();
    assert_eq!(referrer.referral_count, 0);
    assert_eq!(referrer.total_referral_fees, 800_000);
}

#[test]
fn buy_whose_referral_cannot_be_booked_is_refused() {
    let mut accounts = buy_accounts(fresh_curve(0));
    accounts.user_profile = Some(profile(3, "trader", None));
    let mut friend = profile(9, "friend", None);
    friend.referral_count = u64::MAX;
    accounts.referrer_profile = Some(friend.clone());
    accounts.referrer_wallet = Some(key(9));
    let before = accounts.clone();
    assert_eq!(
        buy_handler(&mut accounts, &config(), 1_000, 1_000_000_000, 0),
        Err(FuseError::MathOverflow)
    );
    assert_eq!(accounts, before);

    friend.referral_count = 5;
    friend.total_referral_fees = u64::MAX - 799_999;
    accounts.referrer_profile = Some(friend.clone());
    let before = accounts.clone();
    assert_eq!(
        buy_handler(&mut accounts, &config(), 1_000, 1_000_000_000, 0),
        Err(FuseError::MathOverflow)
    );
    assert_eq!(accounts, before);

    friend.total_referral_fees = u64::MAX - 800_000;
    accounts.referrer_profile = Some(friend);
    let receipt = buy_handler(&mut accounts, &config(), 1_000, 1_000_000_000, 0).unwrap();
    assert_eq!(receipt.routing.referral_fee, 800_000);
    let referrer = accounts.referrer_profile.unwrap();
    assert_eq!(referrer.referral_count, 6);
    assert_eq!(referrer.total_referral_fees, u64::MAX);
}

#[test]
fn buyer_who_names_themself_is_neither_paid_nor_bound() {
    let mut accounts = buy_accounts(fresh_curve(0));
    accounts.user_profile = Some(profile(3, "trader", None));
    accounts.referrer_profile = Some(profile(3, "trader", None));
    accounts.referrer_wallet = Some(key(3));
    let receipt = buy_handler(&mut accounts, &config(), 1_000, 1_000_000_000, 0).unwrap();
    assert_eq!(receipt.tokens_out, 34_277_831_558_567);
    assert_eq!(receipt.routing.referrer, None);
    assert_eq!(receipt.routing.referral_fee, 0);
    assert_eq!(receipt.routing.treasury_fee, 8_000_000);
    assert_eq!(receipt.amount_to_curve, 992_000_000);
    assert_eq!(accounts.user_profile, Some(profile(3, "trader", None)));
    assert_eq!(accounts.referrer_profile, Some(profile(3, "trader", None)));

    let mut accounts = buy_accounts(fresh_curve(0));
    accounts.referrer_profile = Some(profile(3, "trader", None));
    accounts.referrer_wallet = Some(key(3));
    let receipt = buy_handler(&mut accounts, &config(), 1_000, 1_000_000_000, 0).unwrap();
    assert_eq!(receipt.routing.referrer, None);
    assert_eq!(receipt.routing.treasury_fee, 8_000_000);
    assert_eq!(accounts.user_profile, None);
    assert_eq!(accounts.referrer_profile, Some(profile(3, "trader", None)));
}

#[test]
fn seller_who_names_themself_is_neither_paid_nor_bound() {
    let mut curve = fresh_curve(0);
    curve.real_sol_reserves = 1_000_000_000;
    let mut accounts = sell_accounts(curve.clone());
    accounts.user_profile = Some(profile(3, "trader", None));
    accounts.referrer_profile = Some(profile(3, "trader", None));
    accounts.referrer_wallet = Some(key(3));
    let sold = sell_handler(&mut accounts, &config(), 5, 1_000_000_000_000, 0).unwrap();
    assert_eq!(sold.sol_out, 27_932_960);
    assert_eq!(sold.routing.referrer, None);
    assert_eq!(sold.routing.referral_fee, 0);
    assert_eq!(sold.routing.treasury_fee, 223_463);
    assert_eq!(accounts.user_profile, Some(profile(3, "trader", None)));
    assert_eq!(accounts.referrer_profile, Some(profile(3, "trader", None)));

    let mut accounts = sell_accounts(curve);
    accounts.referrer_profile = Some(profile(3, "trader", None));
    accounts.referrer_wallet = Some(key(3));
    let sold = sell_handler(&mut accounts, &config(), 5, 1_000_000_000_000, 0).unwrap();
    assert_eq!(sold.routing.referrer, None);
    assert_eq!(sold.routing.treasury_fee, 223_463);
    assert_eq!(accounts.referrer_profile, Some(profile(3, "trader", None)));
}

#[test]
fn sell_whose_referral_cannot_be_booked_is_refused() {
    let mut curve = fresh_curve(0);
    curve.real_sol_reserves = 1_000_000_000;
    let mut accounts = sell_accounts(curve);
    accounts.user_profile = Some(profile(3, "trader", Some(key(9))));
    let mut friend = profile(9, "friend", None);
    friend.total_referral_fees = u64::MAX - 22_345;
    accounts.referrer_profile = Some(friend);
    accounts.referrer_wallet = Some(key(9));
    let before = accounts.clone();
    assert_eq!(
        sell_handler(&mut accounts, &config(), 5, 1_000_000_000_000, 0),
        Err(FuseError::MathOverflow)
    );
    assert_eq!(accounts, before);
}

#[test]
fn buy_that_reaches_the_threshold_announces_graduation_once() {
    let mut accounts = buy_accounts(fresh_curve(0));
    let first = buy_handler(&mut accounts, &config(), 1_000, 43_000_000_000, 0).unwrap();
    assert_eq!(first.graduation, None);
    assert_eq!(accounts.curve_config.real_sol_reserves, 42_570_000_000);
    let second = buy_handler(&mut accounts, &config(), 1_001, 42_860_000_000, 0).unwrap();
    assert_eq!(
        second.graduation,
        Some(GraduationTriggered {
            mint: key(2),
            real_sol_reserves: 85_001_400_000,
            market_cap: 410_000_000_000,
            timestamp: 1_001,
        })
    );
    assert_eq!(second.trade.price, 410);
    let third = buy_handler(&mut accounts, &config(), 1_002, 1_000_000, 0).unwrap();
    assert_eq!(third.graduation, None);
    assert_eq!(accounts.curve_config.real_sol_reserves, 85_002_390_000);
}

#[test]
fn buy_that_lands_exactly_on_the_threshold_announces_graduation() {
    let mut accounts = buy_accounts(fresh_curve(0));
    buy_handler(&mut accounts, &config(), 1_000, 43_000_000_000, 0).unwrap();
    let second = buy_handler(&mut accounts, &config(), 1_001, 42_858_585_858, 0).unwrap();
    assert_eq!(accounts.curve_config.real_sol_reserves, 85_000_000_000);
    assert!(second.graduation.is_some());
}

#[test]
fn sell_after_buy_returns_less_than_was_spent() {
    let mut bought = buy_accounts(fresh_curve(0));
    let k0 = product(&bought.curve_config);
    let receipt = buy_handler(&mut bought, &config(), 1_000, 1_000_000_000, 0).unwrap();
    let k1 = product(&bought.curve_config);
    assert!(k1 >= k0);

    let mut accounts = sell_accounts(bought.curve_config.clone());
    let sold = sell_handler(&mut accounts, &config(), 1_001, receipt.tokens_out, 0).unwrap();
    assert_eq!(sold.tokens_in, 34_277_831_558_567);
    assert_eq!(sold.sol_out, 989_999_999);
    assert_eq!(sold.fees.total_fee, 9_899_999);
    assert_eq!(sold.fees.protocol_fee, 7_919_999);
    assert_eq!(sold.fees.creator_fee, 1_980_000);
    assert_eq!(sold.user_receives, 980_100_000);
    assert!(sold.user_receives <= 1_000_000_000);
    assert_eq!(sold.routing.treasury_fee, 7_919_999);
    assert_eq!(accounts.curve_config.virtual_sol_reserves, 30_000_000_001);
    assert_eq!(accounts.curve_config.virtual_token_reserves, 1_073_000_000_000_000);
    assert_eq!(accounts.curve_config.real_sol_reserves, 1);
    assert_eq!(accounts.curve_config.real_token_reserves, 793_100_000_000_000);
    assert_eq!(accounts.curve_config.creator_fee_accumulated, 3_980_000);
    assert!(product(&accounts.curve_config) >= k1);
    assert_eq!(sold.trade.price, 27);
    assert_eq!(sold.trade.is_buy, false);
    assert_eq!(sold.trade.sol_amount, 989_999_999);
    assert_eq!(sold.trade.token_amount, 34_277_831_558_567);
    assert_eq!(sold.trade.market_cap_lamports, 27_000_000_000);
    assert_eq!(sold.reserves_before.real_sol_reserves, 990_000_000);
    assert_eq!(sold.reserves_after.real_sol_reserves, 1);
    assert_eq!(sold.trade.virtual_sol_reserves_before, 30_990_000_000);
    assert_eq!(sold.trade.virtual_token_reserves_before, 1_038_722_168_441_433);
    assert_eq!(sold.trade.real_sol_reserves_before, 990_000_000);
    assert_eq!(sold.trade.real_token_reserves_before, 758_822_168_441_433);
    assert_eq!(sold.trade.virtual_sol_reserves, 30_000_000_001);
    assert_eq!(sold.trade.virtual_token_reserves, 1_073_000_000_000_000);
    assert_eq!(sold.trade.real_sol_reserves, 1);
    assert_eq!(sold.trade.real_token_reserves, 793_100_000_000_000);
}

#[test]
fn sell_takes_its_fee_from_the_lamports_paid_out() {
    let mut curve = fresh_curve(0);
    curve.real_sol_reserves = 1_000_000_000;
    let mut accounts = sell_accounts(curve);
    let sold = sell_handler(&mut accounts, &config(), 5, 1_000_000_000_000, 0).unwrap();
    assert_eq!(
        sold.sol_out as u128,
        30_000_000_000u128 * 1_000_000_000_000 / (1_073_000_000_000_000 + 1_000_000_000_000)
    );
    assert_eq!(sold.sol_out, 27_932_960);
    assert_eq!(sold.fees.total_fee, 279_329);
    assert_eq!(sold.fees.protocol_fee, 223_463);
    assert_eq!(sold.fees.creator_fee, 55_866);
    assert_eq!(sold.user_receives, 27_653_631);
    assert_eq!(
        sold.user_receives + sold.routing.referral_fee + sold.routing.treasury_fee
            + sold.fees.creator_fee,
        sold.sol_out
    );
}

#[test]
fn sell_of_more_than_the_curve_raised_is_refused() {
    let mut accounts = sell_accounts(fresh_curve(0));
    let before = accounts.clone();
    assert_eq!(
        sell_handler(&mut accounts, &config(), 5, 1_000_000, 0),
        Err(FuseError::InsufficientLiquidity)
    );
    assert_eq!(accounts, before);
}

#[test]
fn sell_below_the_minimum_is_refused() {
    let mut curve = fresh_curve(0);
    curve.real_sol_reserves = 1_000_000_000;
    let mut accounts = sell_accounts(curve);
    let before = accounts.clone();
    assert_eq!(
        sell_handler(&mut accounts, &config(), 5, 1_000_000_000_000, 27_653_632),
        Err(FuseError::SlippageExceeded)
    );
    assert_eq!(accounts, before);
    assert!(sell_handler(&mut accounts, &config(), 5, 1_000_000_000_000, 27_653_631).is_ok());
}

#[test]
fn sell_on_a_completed_curve_is_refused() {
    let mut curve = fresh_curve(0);
    curve.complete = true;
    curve.real_token_reserves = 0;
    let mut accounts = sell_accounts(curve);
    assert_eq!(
        sell_handler(&mut accounts, &config(), 5, 1_000, 0),
        Err(FuseError::TradingDisabled)
    );
}

#[test]
fn sell_that_lifts_a_counter_out_of_range_is_refused() {
    let mut curve = fresh_curve(0);
    curve.real_sol_reserves = 30_000_000_000;
    let mut accounts = sell_accounts(curve);
    let before = accounts.clone();
    assert_eq!(
        sell_handler(&mut accounts, &config(), 5, u64::MAX - 5, 0),
        Err(FuseError::MathOverflow)
    );
    assert_eq!(accounts, before);
}

#[test]
fn sell_into_empty_counters_is_refused() {
    let mut curve = fresh_curve(0);
    curve.virtual_token_reserves = 0;
    curve.real_token_reserves = 0;
    let mut accounts = sell_accounts(curve);
    assert_eq!(sell_handler(&mut accounts, &config(), 5, 0, 0), Err(FuseError::MathOverflow));
}

#[test]
fn sell_pays_the_referrer_and_binds_like_a_buy() {
    let mut curve = fresh_curve(0);
    curve.real_sol_reserves = 1_000_000_000;
    let mut accounts = sell_accounts(curve);
    accounts.user_profile = Some(profile(3, "trader", None));
    accounts.referrer_profile = Some(profile(9, "friend", None));
    accounts.referrer_wallet = Some(key(9));
    let sold = sell_handler(&mut accounts, &config(), 5, 1_000_000_000_000, 0).unwrap();
    assert_eq!(sold.routing.referrer, Some(key(9)));
    assert_eq!(sold.routing.referral_fee, 22_346);
    assert_eq!(sold.routing.treasury_fee, 201_117);
    assert_eq!(accounts.user_profile.unwrap().referrer, Some(key(9)));
    let referrer = accounts.referrer_profile.unwrap();
    assert_eq!(referrer.referral_count, 1);
    assert_eq!(referrer.total_referral_fees, 22_346);
}

#[test]
fn trades_never_lower_the_product_of_the_counters() {
    let mut curve = fresh_curve(0);
    let mut k = product(&curve);
    let amounts: [u64; 6] = [1, 999, 123_456_789, 5_000_000_000, 77, 20_000_000_000];
    for amount in amounts {
        let mut accounts = buy_accounts(curve.clone());
        let receipt = buy_handler(&mut accounts, &config(), 1_000, amount, 0).unwrap();
        assert!(product(&accounts.curve_config) >= k);
        assert!(accounts.curve_config.is_well_formed());
        k = product(&accounts.curve_config);
        let mut back = sell_accounts(accounts.curve_config.clone());
        let sold = sell_handler(&mut back, &config(), 1_000, receipt.tokens_out / 2, 0).unwrap();
        assert!(sold.user_receives <= amount);
        assert!(product(&back.curve_config) >= k);
        assert!(back.curve_config.is_well_formed());
        k = product(&back.curve_config);
        curve = back.curve_config;
    }
}

fn next_random(state: &mut u64) -> u64 {
    *state = state
        .wrapping_mul(6_364_136_223_846_793_005)
        .wrapping_add(1_442_695_040_888_963_407);
    *state >> 11
}

#[test]
fn any_run_of_trades_keeps_the_curve_sound() {
    let mut seed: u64 = 0x5eed;
    let mut curve = fresh_curve(0);
    let mut done: u32 = 0;
    let mut refused: u32 = 0;
    for round in 0..20_000u32 {
        let before = curve.clone();
        let k = product(&before);
        let pick = next_random(&mut seed);
        let size = next_random(&mut seed) % 40;
        let amount = next_random(&mut seed) >> (13 + size);
        if pick % 2 == 0 {
            let mut accounts = buy_accounts(curve.clone());
            match buy_handler(&mut accounts, &config(), 1_000 + round as i64, amount, 0) {
                Ok(receipt) => {
                    done += 1;
                    let after = &accounts.curve_config;
                    assert_eq!(
                        receipt.routing.referral_fee
                            + receipt.routing.treasury_fee
                            + receipt.amount_to_curve,
                        amount
                    );
                    assert_eq!(receipt.fees.protocol_fee + receipt.fees.creator_fee, receipt.fees.total_fee);
                    assert_eq!(receipt.fees.total_fee as u128, (amount as u128) * 100 / 10_000);
                    assert_eq!(
                        after.virtual_sol_reserves - before.virtual_sol_reserves,
                        after.real_sol_reserves - before.real_sol_reserves
                    );
                    assert_eq!(
                        before.virtual_token_reserves - after.virtual_token_reserves,
                        receipt.tokens_out
                    );
                    let mut back = sell_accounts(after.clone());
                    if let Ok(sold) =
                        sell_handler(&mut back, &config(), 0, receipt.tokens_out, 0)
                    {
                        assert!(sold.sol_out <= receipt.fees.net_amount);
                        assert!(sold.user_receives <= amount);
                    }
                }
                Err(_) => {
                    refused += 1;
                    assert_eq!(accounts.curve_config, before);
                }
            }
            curve = accounts.curve_config;
        } else {
            let tokens = amount.wrapping_mul(20_000);
            let mut accounts = sell_accounts(curve.clone());
            match sell_handler(&mut accounts, &config(), 0, tokens, 0) {
                Ok(receipt) => {
                    done += 1;
                    assert_eq!(
                        receipt.user_receives
                            + receipt.routing.referral_fee
                            + receipt.routing.treasury_fee
                            + receipt.fees.creator_fee,
                        receipt.sol_out
                    );
                    assert_eq!(
                        receipt.fees.total_fee as u128,
                        (receipt.sol_out as u128) * 100 / 10_000
                    );
                }
                Err(_) => {
                    refused += 1;
                    assert_eq!(accounts.curve_config, before);
                }
            }
            curve = accounts.curve_config;
        }
        assert!(product(&curve) >= k);
        assert!(curve.is_well_formed());
        assert!(curve.creator_fee_accumulated >= before.creator_fee_accumulated);
        assert_eq!(curve.virtual_sol_reserves - curve.real_sol_reserves, 30_000_000_000);
        assert_eq!(
            curve.virtual_token_reserves - curve.real_token_reserves,
            279_900_000_000_000
        );
    }
    assert!(done > 1_000);
    assert!(refused > 1_000);
}
