use swiftremit::errors::ContractError;
use swiftremit::fee::checked_sum;
use swiftremit::fee::compute_fee;
use swiftremit::fee::BPS_DENOMINATOR;
use swiftremit::fee::MAX_FEE_BPS;

#[test]
fn fee_is_one_percent_at_100_bps() {
    assert_eq!(compute_fee(10_000, 100), Ok(100));
}

#[test]
fn fee_rounds_down() {
    assert_eq!(compute_fee(9_999, 100), Ok(99));
    assert_eq!(compute_fee(199, 50), Ok(0));
    assert_eq!(compute_fee(200, 50), Ok(1));
    assert_eq!(compute_fee(1, 9_999), Ok(0));
    assert_eq!(compute_fee(12_345, 250), Ok(308));
}

#[test]
fn fee_is_zero_at_zero_bps() {
    assert_eq!(compute_fee(1, 0), Ok(0));
    assert_eq!(compute_fee(i128::MAX, 0), Ok(0));
}

#[test]
fn fee_is_whole_amount_at_max_bps() {
    assert_eq!(compute_fee(10_000, 10_000), Ok(10_000));
    assert_eq!(compute_fee(1, 10_000), Ok(1));
    assert_eq!(compute_fee(7, MAX_FEE_BPS), Ok(7));
}

#[test]
fn fee_rejects_amount_that_is_not_positive() {
    assert_eq!(compute_fee(0, 100), Err(ContractError::InvalidAmount));
    assert_eq!(compute_fee(-1, 100), Err(ContractError::InvalidAmount));
    assert_eq!(compute_fee(i128::MIN, 0), Err(ContractError::InvalidAmount));
}

#[test]
fn fee_rejects_rate_above_max() {
    assert_eq!(compute_fee(10_000, 10_001), Err(ContractError::InvalidFeeBps));
    assert_eq!(compute_fee(1, u32::MAX), Err(ContractError::InvalidFeeBps));
}

#[test]
fn fee_checks_amount_before_rate() {
    assert_eq!(compute_fee(0, 10_001), Err(ContractError::InvalidAmount));
}

#[test]
fn fee_checks_rate_before_overflow() {
    assert_eq!(compute_fee(i128::MAX, 10_001), Err(ContractError::InvalidFeeBps));
}

#[test]
fn fee_reports_overflow_of_the_product() {
    assert_eq!(compute_fee(i128::MAX, 2), Err(ContractError::Overflow));
    assert_eq!(compute_fee(i128::MAX / 100 + 1, 100), Err(ContractError::Overflow));
}

#[test]
fn fee_of_largest_product_that_fits() {
    assert_eq!(compute_fee(i128::MAX, 1), Ok(i128::MAX / 10_000));
    assert_eq!(compute_fee(i128::MAX / 100, 100), Ok((i128::MAX / 100) * 100 / 10_000));
}

#[test]
fn fee_stays_within_bounds_on_a_grid() {
    let amounts: [i128; 7] = [1, 2, 99, 100, 9_999, 10_000, 123_456_789];
    let rates: [u32; 7] = [0, 1, 25, 100, 5_000, 9_999, 10_000];
    for amount in amounts {
        for rate in rates {
            let fee = compute_fee(amount, rate).unwrap();
            assert!(0 <= fee && fee <= amount);
            if rate < 10_000 {
                assert!(fee < amount);
            }
            assert!(fee * BPS_DENOMINATOR <= amount * (rate as i128));
            assert!(amount * (rate as i128) < (fee + 1) * BPS_DENOMINATOR);
        }
    }
}

#[test]
fn checked_sum_adds_or_reports_overflow() {
    assert_eq!(checked_sum(2, 3), Ok(5));
    assert_eq!(checked_sum(-2, 3), Ok(1));
    assert_eq!(checked_sum(i128::MAX, 0), Ok(i128::MAX));
    assert_eq!(checked_sum(i128::MAX, 1), Err(ContractError::Overflow));
    assert_eq!(checked_sum(i128::MIN, -1), Err(ContractError::Overflow));
}
