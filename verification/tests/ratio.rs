use simpledex::error::SimpleDexError;
use simpledex::fee::calc_fee;
use simpledex::types::Ratio;

#[test]
fn ratio_floor_rounds_down() {
    let r = Ratio::new(10, 10_000).unwrap();
    assert_eq!(r.apply_floor(500), Ok(0));
    assert_eq!(r.apply_floor(999), Ok(0));
    assert_eq!(r.apply_floor(1_000), Ok(1));
    assert_eq!(r.apply_floor(u64::MAX), Ok(18_446_744_073_709_551));
}

#[test]
fn ratio_ceil_rounds_up() {
    let r = Ratio::new(10, 100).unwrap();
    assert_eq!(r.apply_ceil(60), Ok(6));
    assert_eq!(r.apply_ceil(61), Ok(7));
    assert_eq!(r.apply_ceil(0), Ok(0));
}

#[test]
fn ratio_rejects_zero_denominator() {
    assert!(matches!(Ratio::new(1, 0), Err(SimpleDexError::InternalError)));
    assert_eq!(Ratio::new_unchecked(1, 0).apply_floor(1), Err(SimpleDexError::InternalError));
    assert_eq!(Ratio::new_unchecked(1, 0).apply_ceil(1), Err(SimpleDexError::InternalError));
}

#[test]
fn fee_is_ten_basis_points_rounded_down() {
    assert_eq!(calc_fee(45), Ok(0));
    assert_eq!(calc_fee(900_000), Ok(900));
    assert_eq!(calc_fee(99_000), Ok(99));
    assert_eq!(calc_fee(1_999), Ok(1));
}

#[test]
fn ratio_result_must_fit() {
    let r = Ratio::new(u64::MAX, 1).unwrap();
    assert_eq!(r.apply_floor(1), Ok(u64::MAX));
    assert_eq!(r.apply_floor(2), Err(SimpleDexError::InternalError));
    assert_eq!(r.apply_ceil(2), Err(SimpleDexError::InternalError));
    let half = Ratio::new(u64::MAX, 2).unwrap();
    // (2^64 - 1) * 2 / 2
    assert_eq!(half.apply_floor(2), Ok(u64::MAX));
    // (2^64 - 1) * 3 / 2 does not fit
    assert_eq!(half.apply_ceil(3), Err(SimpleDexError::InternalError));
}

#[test]
fn ratio_is_exact_on_the_widest_product() {
    let r = Ratio::new(u64::MAX, u64::MAX).unwrap();
    assert_eq!(r.apply_floor(u64::MAX), Ok(u64::MAX));
    assert_eq!(r.apply_ceil(u64::MAX), Ok(u64::MAX));
    let below = Ratio::new(u64::MAX - 1, u64::MAX).unwrap();
    // (2^64 - 2) * (2^64 - 1) / (2^64 - 1)
    assert_eq!(below.apply_floor(u64::MAX), Ok(u64::MAX - 1));
    // (2^64 - 2)^2 / (2^64 - 1) = 2^64 - 3 + 1 / (2^64 - 1)
    assert_eq!(below.apply_floor(u64::MAX - 1), Ok(u64::MAX - 2));
    assert_eq!(below.apply_ceil(u64::MAX - 1), Ok(u64::MAX - 1));
}

#[test]
fn ratio_ceil_catches_the_smallest_fraction() {
    // 1 / (10^13 + 1) of 1 is above zero by less than 10^-12
    let r = Ratio::new(1, 10_000_000_000_001).unwrap();
    assert_eq!(r.apply_ceil(1), Ok(1));
    assert_eq!(r.apply_floor(1), Ok(0));
    assert_eq!(r.apply_ceil(10_000_000_000_001), Ok(1));
    assert_eq!(r.apply_ceil(10_000_000_000_002), Ok(2));
}
