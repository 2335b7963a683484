use division_one_crypto::error::HookError;
use division_one_crypto::fees::{
    compute_fee, compute_fees, FeeSplit, BURN_FEE_RATE, FEE_DENOMINATOR, INSTITUTION_FEE_RATE,
    MIN_FEE_BEARING_AMOUNT, OPS_FEE_RATE,
};

#[test]
fn rates_are_thousandths() {
    assert_eq!(FEE_DENOMINATOR, 1000);
    assert_eq!(OPS_FEE_RATE, 5);
    assert_eq!(BURN_FEE_RATE, 5);
    assert_eq!(INSTITUTION_FEE_RATE, 20);
    assert_eq!(MIN_FEE_BEARING_AMOUNT, 50);
}

#[test]
fn fees_on_one_thousand() {
    let fees = compute_fees(1000).unwrap();
    assert_eq!(fees, FeeSplit { ops_fee: 5, burn_fee: 5, institution_fee: 20 });
    assert_eq!(fees.total_extracted(), Some(30));
}

#[test]
fn fees_on_ten_are_zero() {
    let fees = compute_fees(10).unwrap();
    assert_eq!(fees, FeeSplit { ops_fee: 0, burn_fee: 0, institution_fee: 0 });
    assert_eq!(fees.total_extracted(), Some(0));
}

#[test]
fn fees_on_zero_are_zero() {
    assert_eq!(compute_fees(0), Ok(FeeSplit { ops_fee: 0, burn_fee: 0, institution_fee: 0 }));
}

#[test]
fn fees_round_down() {
    assert_eq!(compute_fee(199, 5), Ok(0));
    assert_eq!(compute_fee(200, 5), Ok(1));
    assert_eq!(compute_fee(399, 5), Ok(1));
    assert_eq!(compute_fee(49, 20), Ok(0));
    assert_eq!(compute_fee(50, 20), Ok(1));
    assert_eq!(compute_fee(99, 20), Ok(1));
    assert_eq!(compute_fee(123_456_789, 20), Ok(2_469_135));
    assert_eq!(compute_fee(123_456_789, 5), Ok(617_283));
}

#[test]
fn below_fifty_nothing_is_due() {
    for amount in 0..50u64 {
        let fees = compute_fees(amount).unwrap();
        assert_eq!(fees, FeeSplit { ops_fee: 0, burn_fee: 0, institution_fee: 0 });
    }
    assert_eq!(
        compute_fees(50),
        Ok(FeeSplit { ops_fee: 0, burn_fee: 0, institution_fee: 1 })
    );
}

#[test]
fn fees_never_exceed_the_amount() {
    let mut amount: u64 = 1;
    while amount < u64::MAX / 40 {
        let fees = compute_fees(amount).unwrap();
        let total = fees.total_extracted().unwrap();
        assert!(total <= amount);
        assert!(total as u128 * 1000 <= amount as u128 * 30);
        assert_eq!(fees.ops_fee as u128, amount as u128 * 5 / 1000);
        assert_eq!(fees.burn_fee as u128, amount as u128 * 5 / 1000);
        assert_eq!(fees.institution_fee as u128, amount as u128 * 20 / 1000);
        amount = amount * 3 + 7;
    }
}

#[test]
fn fee_product_overflow_is_reported() {
    assert_eq!(compute_fee(u64::MAX, 5), Err(HookError::ArithmeticOverflow));
    assert_eq!(compute_fee(u64::MAX / 5, 5), Ok(u64::MAX / 5 * 5 / 1000));
    assert_eq!(compute_fee(u64::MAX / 5 + 1, 5), Err(HookError::ArithmeticOverflow));
    assert_eq!(compute_fees(u64::MAX), Err(HookError::ArithmeticOverflow));
}

#[test]
fn largest_amount_without_overflow() {
    let largest = u64::MAX / 20;
    let fees = compute_fees(largest).unwrap();
    assert_eq!(fees.institution_fee, largest * 20 / 1000);
    assert_eq!(fees.ops_fee, largest * 5 / 1000);
    assert_eq!(compute_fees(largest + 1), Err(HookError::ArithmeticOverflow));
}

#[test]
fn total_of_a_split_that_does_not_fit() {
    let split = FeeSplit { ops_fee: u64::MAX, burn_fee: 1, institution_fee: 0 };
    assert_eq!(split.total_extracted(), None);
    let split = FeeSplit { ops_fee: u64::MAX - 1, burn_fee: 1, institution_fee: 0 };
    assert_eq!(split.total_extracted(), Some(u64::MAX));
}
