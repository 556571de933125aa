use fuse::curve::{
    calculate_current_price, calculate_market_cap, calculate_sol_out, calculate_tokens_out,
    market_cap_at,
};
use fuse::errors::FuseError;
use fuse::fees::{split_fee, FeeSplit};

#[test]
fn tokens_out_is_the_share_of_the_token_counter_rounded_down() {
    assert_eq!(
        calculate_tokens_out(30_000_000_000, 1_073_000_000_000_000, 990_000_000),
        Ok(34_277_831_558_567)
    );
    assert_eq!(calculate_tokens_out(100, 1_000, 100), Ok(500));
    assert_eq!(calculate_tokens_out(3, 10, 1), Ok(2));
    assert_eq!(calculate_tokens_out(30_000_000_000, 1_073_000_000_000_000, 0), Ok(0));
}

#[test]
fn tokens_out_never_exceeds_the_counter() {
    assert_eq!(calculate_tokens_out(0, 1_000, 1), Ok(1_000));
    assert_eq!(calculate_tokens_out(1, u64::MAX, u64::MAX), Ok(u64::MAX - 1));
    assert_eq!(calculate_tokens_out(u64::MAX, u64::MAX, u64::MAX), Ok(u64::MAX / 2));
}

#[test]
fn tokens_out_with_nothing_to_divide_by_is_refused() {
    assert_eq!(calculate_tokens_out(0, 1_000, 0), Err(FuseError::MathOverflow));
    assert_eq!(calculate_sol_out(1_000, 0, 0), Err(FuseError::MathOverflow));
}

#[test]
fn sol_out_is_the_share_of_the_sol_counter_rounded_down() {
    assert_eq!(
        calculate_sol_out(30_990_000_000, 1_038_722_168_441_433, 34_277_831_558_567),
        Ok(989_999_999)
    );
    assert_eq!(calculate_sol_out(1_000, 100, 100), Ok(500));
    assert_eq!(calculate_sol_out(10, 3, 1), Ok(2));
}

#[test]
fn quotes_grow_with_the_amount_paid_in() {
    let mut last: u64 = 0;
    let mut amount: u64 = 1;
    while amount < 4_000_000_000_000_000_000 {
        let out = calculate_tokens_out(30_000_000_000, 1_073_000_000_000_000, amount).unwrap();
        assert!(out >= last);
        assert!(out < 1_073_000_000_000_000);
        last = out;
        amount *= 3;
    }
}

#[test]
fn price_is_scaled_by_a_million() {
    assert_eq!(calculate_current_price(30_000_000_000, 1_073_000_000_000_000), 27);
    assert_eq!(calculate_current_price(30_990_000_000, 1_038_722_168_441_433), 29);
    assert_eq!(calculate_current_price(1, 1), 1_000_000);
    assert_eq!(calculate_current_price(0, 5), 0);
    assert_eq!(calculate_current_price(7, 2), 3_500_000);
}

#[test]
fn price_keeps_its_low_64_bits() {
    assert_eq!(calculate_current_price(u64::MAX, 1), 18_446_744_073_708_551_616);
    assert_eq!(calculate_current_price(u64::MAX, 7), 2_635_249_153_386_935_945);
    assert_eq!(calculate_current_price(1 << 63, 1), 0);
}

#[test]
fn market_cap_is_supply_times_price_over_a_million() {
    assert_eq!(market_cap_at(29, 1_000_000_000_000_000), 29_000_000_000);
    assert_eq!(market_cap_at(1_000_000, 5), 5);
    assert_eq!(market_cap_at(999_999, 1), 0);
    assert_eq!(
        calculate_market_cap(30_000_000_000, 1_073_000_000_000_000, 1_000_000_000_000_000),
        27_000_000_000
    );
    assert_eq!(
        calculate_market_cap(115_001_400_000, 279_909_635_882_694, 1_000_000_000_000_000),
        410_000_000_000
    );
}

#[test]
fn market_cap_keeps_its_low_64_bits() {
    assert_eq!(market_cap_at(12_345_678_901_234_567, u64::MAX), 4_326_997_404_792_149_492);
    assert_eq!(
        calculate_market_cap(u64::MAX, 7, 1_000_000_000_000_000),
        15_811_352_063_036_758_528
    );
}

#[test]
fn fee_is_split_between_protocol_and_creator() {
    assert_eq!(
        split_fee(1_000_000_000, 100, 80),
        Ok(FeeSplit {
            total_fee: 10_000_000,
            protocol_fee: 8_000_000,
            creator_fee: 2_000_000,
            net_amount: 990_000_000,
        })
    );
    assert_eq!(
        split_fee(989_999_999, 100, 80),
        Ok(FeeSplit {
            total_fee: 9_899_999,
            protocol_fee: 7_919_999,
            creator_fee: 1_980_000,
            net_amount: 980_100_000,
        })
    );
}

#[test]
fn fee_parts_add_up_whatever_is_rounded_away() {
    let amounts: [u64; 7] = [0, 1, 99, 100, 101, 12_345, 184_467_440_737_095_516];
    for amount in amounts {
        let split = split_fee(amount, 100, 80).unwrap();
        assert_eq!(split.total_fee as u128, (amount as u128) * 100 / 10_000);
        assert_eq!(split.protocol_fee as u128, (split.total_fee as u128) * 80 / 100);
        assert_eq!(split.protocol_fee + split.creator_fee, split.total_fee);
        assert_eq!(split.net_amount + split.total_fee, amount);
    }
}

#[test]
fn small_amounts_pay_no_fee() {
    assert_eq!(
        split_fee(99, 100, 80),
        Ok(FeeSplit { total_fee: 0, protocol_fee: 0, creator_fee: 0, net_amount: 99 })
    );
    assert_eq!(
        split_fee(199, 100, 80),
        Ok(FeeSplit { total_fee: 1, protocol_fee: 0, creator_fee: 1, net_amount: 198 })
    );
}

#[test]
fn fee_that_leaves_its_range_is_refused() {
    assert_eq!(split_fee(184_467_440_737_095_517, 100, 80), Err(FuseError::MathOverflow));
    assert_eq!(split_fee(u64::MAX, 100, 80), Err(FuseError::MathOverflow));
    assert_eq!(split_fee(10_000, 10_001, 80), Err(FuseError::MathOverflow));
    assert_eq!(split_fee(1_000_000, 100, 101), Err(FuseError::MathOverflow));
    assert_eq!(split_fee(u64::MAX, 1, u64::MAX), Err(FuseError::MathOverflow));
}

#[test]
fn fee_rates_at_their_limits_are_accepted() {
    assert_eq!(
        split_fee(1_000, 10_000, 100),
        Ok(FeeSplit { total_fee: 1_000, protocol_fee: 1_000, creator_fee: 0, net_amount: 0 })
    );
    assert_eq!(
        split_fee(1_000, 0, 0),
        Ok(FeeSplit { total_fee: 0, protocol_fee: 0, creator_fee: 0, net_amount: 1_000 })
    );
}
