use swiftremit::fees::{calculate_fee, checked_difference, checked_sum, fee_bps_valid, next_id};
use swiftremit::ContractError;

#[test]
fn fee_is_floor_of_basis_points() {
    assert_eq!(calculate_fee(10_000, 250), Ok(250));
    assert_eq!(calculate_fee(5_000, 250), Ok(125));
    assert_eq!(calculate_fee(1, 9_999), Ok(0));
    assert_eq!(calculate_fee(3, 3_334), Ok(1));
    assert_eq!(calculate_fee(39, 250), Ok(0));
    assert_eq!(calculate_fee(40, 250), Ok(1));
    assert_eq!(calculate_fee(79, 250), Ok(1));
}

#[test]
fn fee_at_the_ends_of_the_rate_range() {
    assert_eq!(calculate_fee(12_345, 0), Ok(0));
    assert_eq!(calculate_fee(12_345, 10_000), Ok(12_345));
    assert_eq!(calculate_fee(0, 250), Ok(0));
}

#[test]
fn fee_stays_between_zero_and_amount() {
    let amounts: [i128; 6] = [1, 2, 99, 10_000, 123_456_789, 1_000_000_000_000_000_000_000];
    let rates: [u32; 6] = [0, 1, 250, 5_000, 9_999, 10_000];
    for amount in amounts {
        for rate in rates {
            let fee = calculate_fee(amount, rate).unwrap();
            assert!(0 <= fee && fee <= amount);
            assert_eq!(fee, amount * (rate as i128) / 10_000);
        }
    }
}

#[test]
fn fee_rounds_toward_zero_for_negative_amounts() {
    assert_eq!(calculate_fee(-79, 250), Ok(-1));
    assert_eq!(calculate_fee(-39, 250), Ok(0));
}

#[test]
fn fee_overflow_is_reported() {
    assert_eq!(calculate_fee(i128::MAX, 2), Err(ContractError::Overflow));
    assert_eq!(calculate_fee(i128::MAX, 10_000), Err(ContractError::Overflow));
    assert_eq!(calculate_fee(i128::MIN, 2), Err(ContractError::Overflow));
    assert_eq!(calculate_fee(i128::MAX, 1), Ok(i128::MAX / 10_000));
}

#[test]
fn fee_rate_limit() {
    assert!(fee_bps_valid(0));
    assert!(fee_bps_valid(10_000));
    assert!(!fee_bps_valid(10_001));
}

#[test]
fn checked_steps() {
    assert_eq!(checked_sum(250, 125), Ok(375));
    assert_eq!(checked_sum(i128::MAX, 1), Err(ContractError::Overflow));
    assert_eq!(checked_sum(i128::MIN, -1), Err(ContractError::Overflow));
    assert_eq!(checked_difference(10_000, 250), Ok(9_750));
    assert_eq!(checked_difference(i128::MIN, 1), Err(ContractError::Overflow));
    assert_eq!(checked_difference(0, i128::MIN), Err(ContractError::Overflow));
    assert_eq!(next_id(0), Ok(1));
    assert_eq!(next_id(41), Ok(42));
    assert_eq!(next_id(u64::MAX), Err(ContractError::Overflow));
}

#[test]
fn error_codes() {
    assert_eq!(ContractError::AlreadyInitialized.code(), 1);
    assert_eq!(ContractError::NotInitialized.code(), 2);
    assert_eq!(ContractError::InvalidAmount.code(), 3);
    assert_eq!(ContractError::InvalidFeeBps.code(), 4);
    assert_eq!(ContractError::AgentNotRegistered.code(), 5);
    assert_eq!(ContractError::RemittanceNotFound.code(), 6);
    assert_eq!(ContractError::InvalidStatus.code(), 7);
    assert_eq!(ContractError::Overflow.code(), 8);
    assert_eq!(ContractError::NoFeesToWithdraw.code(), 9);
    assert_eq!(ContractError::InvalidAddress.code(), 10);
    assert_eq!(ContractError::SettlementExpired.code(), 11);
    assert_eq!(ContractError::DuplicateSettlement.code(), 12);
    assert_eq!(ContractError::ContractPaused.code(), 13);
}
