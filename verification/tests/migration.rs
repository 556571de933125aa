use fuse::config::ProtocolConfig;
use fuse::errors::FuseError;
use fuse::events::CurveCompleted;
use fuse::instructions::buy::{handler as buy_handler, Buy};
use fuse::instructions::migrate::{handler as migrate_handler, is_graduation_reached, Migrate};
use fuse::instructions::sell::{handler as sell_handler, Sell};
use fuse::state::{BondingCurve, ProtocolState, Pubkey};

fn mkey(n: u8) -> Pubkey {
    Pubkey::new_from_array([n; 32])
}

fn mconfig() -> ProtocolConfig {
    ProtocolConfig::standard(60, 2_000_000_000)
}

fn graduated_curve() -> BondingCurve {
    BondingCurve {
        creator: mkey(1),
        token_mint: mkey(2),
        token_total_supply: 1_000_000_000_000_000,
        virtual_sol_reserves: 115_001_400_000,
        virtual_token_reserves: 279_909_635_882_694,
        real_sol_reserves: 85_001_400_000,
        real_token_reserves: 9_635_882_694,
        complete: false,
        bump: 254,
        creator_fee_accumulated: 171_720_000,
        launch_timestamp: 0,
        name: String::from("Fuse"),
        symbol: String::from("FUSE"),
        uri: String::from("https://example.org/fuse.json"),
    }
}

fn migrate_accounts(curve: BondingCurve) -> Migrate {
    Migrate {
        migration_authority: mkey(7),
        protocol_state: ProtocolState {
            authority: mkey(7),
            treasury: mkey(4),
            total_tokens_launched: 1,
            total_volume_sol: 0,
            total_graduated: 0,
            is_paused: false,
            bump: 253,
        },
        curve_config: curve,
        mint: mkey(2),
        creator: mkey(1),
        vault_amount: 206_909_635_882_694,
        curve_lamports: 85_175_000_000,
        rent_exempt_minimum: 2_500_000,
    }
}

#[test]
fn migration_pays_the_creator_and_hands_over_the_rest() {
    let mut accounts = migrate_accounts(graduated_curve());
    let receipt = migrate_handler(&mut accounts, &mconfig(), 5_000).unwrap();
    assert_eq!(receipt.creator_payout, 171_720_000);
    assert_eq!(receipt.sol_for_liquidity, 85_175_000_000 - 171_720_000 - 2_500_000);
    assert_eq!(receipt.sol_for_liquidity, 85_000_780_000);
    assert_eq!(receipt.tokens_for_liquidity, 206_909_635_882_694);
    assert_eq!(
        receipt.event,
        CurveCompleted {
            mint: mkey(2),
            migration_authority: mkey(7),
            final_market_cap: 410_000_000_000,
            total_sol_raised: 85_000_780_000,
            creator_payout: 171_720_000,
            timestamp: 5_000,
        }
    );
    let curve = &accounts.curve_config;
    assert!(curve.complete);
    assert_eq!(curve.real_sol_reserves, 0);
    assert_eq!(curve.real_token_reserves, 0);
    assert_eq!(curve.creator_fee_accumulated, 0);
    assert_eq!(curve.virtual_sol_reserves, 115_001_400_000);
    assert_eq!(curve.virtual_token_reserves, 279_909_635_882_694);
    assert!(curve.is_well_formed());
}

#[test]
fn second_migration_is_refused_and_pays_nothing() {
    let mut accounts = migrate_accounts(graduated_curve());
    migrate_handler(&mut accounts, &mconfig(), 5_000).unwrap();
    let before = accounts.clone();
    assert_eq!(
        migrate_handler(&mut accounts, &mconfig(), 5_001),
        Err(FuseError::CurveAlreadyMigrated)
    );
    assert_eq!(accounts, before);
}

#[test]
fn migration_below_the_threshold_is_refused() {
    let mut curve = graduated_curve();
    curve.real_sol_reserves = 84_999_999_999;
    let mut accounts = migrate_accounts(curve);
    let before = accounts.clone();
    assert_eq!(
        migrate_handler(&mut accounts, &mconfig(), 5_000),
        Err(FuseError::GraduationNotReached)
    );
    assert_eq!(accounts, before);
    accounts.curve_config.real_sol_reserves = 85_000_000_000;
    assert!(migrate_handler(&mut accounts, &mconfig(), 5_000).is_ok());
}

#[test]
fn migration_below_the_threshold_is_refused_whoever_asks() {
    let mut curve = graduated_curve();
    curve.real_sol_reserves = 1;
    let mut accounts = migrate_accounts(curve);
    accounts.migration_authority = mkey(8);
    accounts.creator = mkey(9);
    accounts.curve_lamports = 0;
    let before = accounts.clone();
    assert_eq!(
        migrate_handler(&mut accounts, &mconfig(), 5_000),
        Err(FuseError::GraduationNotReached)
    );
    assert_eq!(accounts, before);
}

#[test]
fn graduation_is_reached_at_the_threshold() {
    let mut curve = graduated_curve();
    assert!(is_graduation_reached(&curve, &mconfig()));
    curve.real_sol_reserves = 85_000_000_000;
    assert!(is_graduation_reached(&curve, &mconfig()));
    curve.real_sol_reserves = 84_999_999_999;
    assert!(!is_graduation_reached(&curve, &mconfig()));
}

#[test]
fn migration_by_another_than_the_authority_is_refused() {
    let mut accounts = migrate_accounts(graduated_curve());
    accounts.migration_authority = mkey(8);
    let before = accounts.clone();
    assert_eq!(migrate_handler(&mut accounts, &mconfig(), 5_000), Err(FuseError::Unauthorized));
    assert_eq!(accounts, before);
}

#[test]
fn migration_that_names_another_creator_is_refused() {
    let mut accounts = migrate_accounts(graduated_curve());
    accounts.creator = mkey(8);
    let before = accounts.clone();
    assert_eq!(migrate_handler(&mut accounts, &mconfig(), 5_000), Err(FuseError::Unauthorized));
    assert_eq!(accounts, before);
}

#[test]
fn migration_that_cannot_pay_the_creator_is_refused() {
    let mut accounts = migrate_accounts(graduated_curve());
    accounts.curve_lamports = 171_719_999;
    let before = accounts.clone();
    assert_eq!(migrate_handler(&mut accounts, &mconfig(), 5_000), Err(FuseError::MathOverflow));
    assert_eq!(accounts, before);
}

#[test]
fn migration_leaves_the_reserved_minimum_with_the_curve() {
    let mut accounts = migrate_accounts(graduated_curve());
    accounts.curve_lamports = 171_720_000 + 2_499_999;
    let receipt = migrate_handler(&mut accounts, &mconfig(), 5_000).unwrap();
    assert_eq!(receipt.creator_payout, 171_720_000);
    assert_eq!(receipt.sol_for_liquidity, 0);

    let mut accounts = migrate_accounts(graduated_curve());
    accounts.curve_lamports = 171_720_000 + 2_500_001;
    let receipt = migrate_handler(&mut accounts, &mconfig(), 5_000).unwrap();
    assert_eq!(receipt.sol_for_liquidity, 1);
}

#[test]
fn migration_without_a_price_is_refused() {
    let mut curve = graduated_curve();
    curve.virtual_token_reserves = 0;
    curve.real_token_reserves = 0;
    let mut accounts = migrate_accounts(curve);
    assert_eq!(migrate_handler(&mut accounts, &mconfig(), 5_000), Err(FuseError::MathOverflow));
}

#[test]
fn completed_curve_no_longer_trades() {
    let mut accounts = migrate_accounts(graduated_curve());
    migrate_handler(&mut accounts, &mconfig(), 5_000).unwrap();
    let mut buy = Buy {
        user: mkey(3),
        curve_config: accounts.curve_config.clone(),
        mint: mkey(2),
        treasury: mkey(4),
        user_profile: None,
        referrer_profile: None,
        referrer_wallet: None,
    };
    assert_eq!(
        buy_handler(&mut buy, &mconfig(), 5_002, 1_000_000, 0),
        Err(FuseError::TradingDisabled)
    );
    let mut sell = Sell {
        user: mkey(3),
        curve_config: accounts.curve_config.clone(),
        mint: mkey(2),
        treasury: mkey(4),
        user_profile: None,
        referrer_profile: None,
        referrer_wallet: None,
    };
    assert_eq!(
        sell_handler(&mut sell, &mconfig(), 5_002, 1_000_000, 0),
        Err(FuseError::TradingDisabled)
    );
    assert_eq!(buy.curve_config, accounts.curve_config);
    assert_eq!(sell.curve_config, accounts.curve_config);
}

#[test]
fn protocol_record_starts_empty_and_running() {
    assert_eq!(
        ProtocolState::new(mkey(7), mkey(4), 253),
        ProtocolState {
            authority: mkey(7),
            treasury: mkey(4),
            total_tokens_launched: 0,
            total_volume_sol: 0,
            total_graduated: 0,
            is_paused: false,
            bump: 253,
        }
    );
}
