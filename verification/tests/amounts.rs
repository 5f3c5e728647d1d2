use erc20_metrics::amount::RawAmount;

#[test]
fn product_of_small_amounts() {
    let a = RawAmount::from_u64(6);
    let b = RawAmount::from_u64(7);
    assert_eq!(a.checked_mul(&b), Some(RawAmount::from_u64(42)));
}

#[test]
fn product_crosses_limbs() {
    let a = RawAmount::from_u128(1u128 << 100);
    let b = RawAmount::from_u128(1u128 << 100);
    // 2^200 sits in the fourth limb, at bit 8.
    assert_eq!(a.checked_mul(&b), Some(RawAmount::from_limbs([0, 0, 0, 1 << 8])));
}

#[test]
fn product_that_overflows_is_none() {
    let a = RawAmount::from_limbs([0, 0, 0, 1]);
    let b = RawAmount::from_limbs([0, 1, 0, 0]);
    assert_eq!(a.checked_mul(&b), None);
    let max = RawAmount::from_limbs([u64::MAX; 4]);
    assert_eq!(max.checked_mul(&RawAmount::from_u64(2)), None);
    assert_eq!(max.checked_mul(&RawAmount::one()), Some(max));
    assert_eq!(max.checked_mul(&RawAmount::zero()), Some(RawAmount::zero()));
}

#[test]
fn powers_of_ten() {
    assert_eq!(RawAmount::pow10(0), Some(RawAmount::one()));
    assert_eq!(RawAmount::pow10(1), Some(RawAmount::from_u64(10)));
    assert_eq!(RawAmount::pow10(6), Some(RawAmount::from_u64(1_000_000)));
    assert_eq!(RawAmount::pow10(18), Some(RawAmount::from_u64(1_000_000_000_000_000_000)));
    assert_eq!(
        RawAmount::pow10(38),
        Some(RawAmount::from_u128(100_000_000_000_000_000_000_000_000_000_000_000_000))
    );
}

#[test]
fn largest_power_of_ten_that_fits() {
    let p77 = RawAmount::pow10(77).expect("10^77 is below 2^256");
    // 10^77 = 10^38 * 10^39, and 10^39 = 10^38 * 10.
    let p38 = RawAmount::pow10(38).unwrap();
    let p39 = p38.checked_mul(&RawAmount::from_u64(10)).unwrap();
    assert_eq!(p38.checked_mul(&p39), Some(p77));
    assert_eq!(RawAmount::pow10(78), None);
    assert_eq!(RawAmount::pow10(255), None);
    assert_eq!(p77.checked_mul(&RawAmount::from_u64(10)), None);
}

#[test]
fn from_u128_splits_into_limbs() {
    let v: u128 = (7u128 << 64) + 9;
    assert_eq!(RawAmount::from_u128(v), RawAmount::from_limbs([9, 7, 0, 0]));
    assert_eq!(RawAmount::from_u128(u128::MAX), RawAmount::from_limbs([u64::MAX, u64::MAX, 0, 0]));
    assert_eq!(RawAmount::from_u128(0), RawAmount::zero());
}

#[test]
fn to_u128_round_trip() {
    assert_eq!(RawAmount::from_u128(u128::MAX).to_u128(), Some(u128::MAX));
    assert_eq!(RawAmount::from_u64(5).to_u128(), Some(5));
    assert_eq!(RawAmount::from_limbs([0, 0, 1, 0]).to_u128(), None);
    assert_eq!(RawAmount::from_limbs([1, 1, 0, 1]).to_u128(), None);
}

#[test]
fn zero_is_zero() {
    assert!(RawAmount::zero().is_zero());
    assert!(!RawAmount::one().is_zero());
    assert!(!RawAmount::from_limbs([0, 0, 0, 1]).is_zero());
    assert!(!RawAmount::from_limbs([0, 1, 0, 0]).is_zero());
}
