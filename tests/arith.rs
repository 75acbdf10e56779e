use erc20_ledger::Saturating;

#[test]
fn saturating_add_stops_at_max() {
    assert_eq!(Saturating::saturating_add(2u128, 3), 5);
    assert_eq!(Saturating::saturating_add(u128::MAX - 1, 1), u128::MAX);
    assert_eq!(Saturating::saturating_add(u128::MAX, u128::MAX), u128::MAX);
}

#[test]
fn saturating_sub_stops_at_zero() {
    assert_eq!(Saturating::saturating_sub(7u128, 3), 4);
    assert_eq!(Saturating::saturating_sub(3u128, 7), 0);
}

#[test]
fn saturating_mul_stops_at_max() {
    assert_eq!(Saturating::saturating_mul(6u128, 7), 42);
    assert_eq!(Saturating::saturating_mul(u128::MAX, 0), 0);
    assert_eq!(Saturating::saturating_mul(u128::MAX / 2 + 1, 2), u128::MAX);
}

#[test]
fn saturating_pow_stops_at_max() {
    assert_eq!(Saturating::saturating_pow(3u128, 4), 81);
    assert_eq!(Saturating::saturating_pow(2u128, 127), 1u128 << 127);
    assert_eq!(Saturating::saturating_pow(2u128, 128), u128::MAX);
    assert_eq!(Saturating::saturating_pow(10u128, usize::MAX), u128::MAX);
    assert_eq!(Saturating::saturating_pow(0u128, 0), 1);
    assert_eq!(Saturating::saturating_pow(0u128, 5), 0);
    assert_eq!(Saturating::saturating_pow(1u128, usize::MAX), 1);
}
