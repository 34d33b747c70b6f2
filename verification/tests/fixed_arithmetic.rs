use pong::fixed::{Fixed, RAW_MAX, RAW_MIN, SCALE};

fn raw(v: i64) -> Fixed {
    Fixed::from_raw(v)
}

#[test]
fn one_unit_is_a_million_steps() {
    assert_eq!(SCALE, 1_000_000);
    assert_eq!(Fixed::from_int(1).raw, 1_000_000);
    assert_eq!(Fixed::from_int(-726).raw, -726_000_000);
    assert_eq!(Fixed::from_int(0), raw(0));
}

#[test]
fn sum_and_difference_are_exact_in_range() {
    assert_eq!(raw(1_500_000).plus(raw(2_250_000)), raw(3_750_000));
    assert_eq!(raw(1_500_000).minus(raw(2_250_000)), raw(-750_000));
    assert_eq!(raw(-5).plus(raw(5)), raw(0));
}

#[test]
fn sum_and_difference_saturate() {
    assert_eq!(raw(RAW_MAX).plus(raw(1)), raw(RAW_MAX));
    assert_eq!(raw(RAW_MIN).plus(raw(-1)), raw(RAW_MIN));
    assert_eq!(raw(RAW_MIN).minus(raw(1)), raw(RAW_MIN));
    assert_eq!(raw(RAW_MAX).minus(raw(-1)), raw(RAW_MAX));
    assert_eq!(raw(RAW_MAX).plus(raw(RAW_MAX)), raw(RAW_MAX));
    assert_eq!(raw(RAW_MIN).minus(raw(RAW_MAX)), raw(RAW_MIN));
}

#[test]
fn negation_and_absolute_value_saturate_at_the_smallest_number() {
    assert_eq!(raw(7).negated(), raw(-7));
    assert_eq!(raw(-7).negated(), raw(7));
    assert_eq!(raw(0).negated(), raw(0));
    assert_eq!(raw(RAW_MIN).negated(), raw(RAW_MAX));
    assert_eq!(raw(RAW_MAX).negated(), raw(-RAW_MAX));
    assert_eq!(raw(-7).abs(), raw(7));
    assert_eq!(raw(7).abs(), raw(7));
    assert_eq!(raw(RAW_MIN).abs(), raw(RAW_MAX));
}

#[test]
fn product_is_cut_towards_zero() {
    // 2.5 * 1.5 = 3.75
    assert_eq!(raw(2_500_000).times(raw(1_500_000)), raw(3_750_000));
    // 0.000001 * 0.5 = 0.0000005, cut to 0 from both sides
    assert_eq!(raw(1).times(raw(500_000)), raw(0));
    assert_eq!(raw(-1).times(raw(500_000)), raw(0));
    // 0.000003 * 0.5 = 0.0000015, cut to 0.000001
    assert_eq!(raw(3).times(raw(500_000)), raw(1));
    assert_eq!(raw(-3).times(raw(500_000)), raw(-1));
    assert_eq!(raw(3).times(raw(-500_000)), raw(-1));
    assert_eq!(raw(-3).times(raw(-500_000)), raw(1));
}

#[test]
fn product_saturates() {
    assert_eq!(raw(RAW_MAX).times(raw(2_000_000)), raw(RAW_MAX));
    assert_eq!(raw(RAW_MAX).times(raw(-2_000_000)), raw(RAW_MIN));
    assert_eq!(raw(RAW_MIN).times(raw(RAW_MIN)), raw(RAW_MAX));
    assert_eq!(raw(RAW_MIN).times(raw(1_000_000)), raw(RAW_MIN));
    assert_eq!(raw(RAW_MIN).times(raw(-1_000_000)), raw(RAW_MAX));
}

#[test]
fn quotient_is_cut_towards_zero() {
    // 100 / 50 = 2
    assert_eq!(Fixed::from_int(100).over(Fixed::from_int(50)), Fixed::from_int(2));
    // 1 / 3 = 0.333333
    assert_eq!(Fixed::from_int(1).over(Fixed::from_int(3)), raw(333_333));
    assert_eq!(Fixed::from_int(-1).over(Fixed::from_int(3)), raw(-333_333));
    assert_eq!(Fixed::from_int(1).over(Fixed::from_int(-3)), raw(-333_333));
    // 2 / 3 = 0.666666, not 0.666667
    assert_eq!(Fixed::from_int(2).over(Fixed::from_int(3)), raw(666_666));
    assert_eq!(raw(RAW_MAX).over(raw(1)), raw(RAW_MAX));
}

#[test]
fn scaling_keeps_the_full_product() {
    // a product of two large numbers that only the division brings back
    let big = raw(4_000_000_000_000_000_000);
    assert_eq!(big.scaled(3, 4), raw(3_000_000_000_000_000_000));
    assert_eq!(big.scaled(4, 3), raw(5_333_333_333_333_333_333));
    assert_eq!(big.scaled(3, 1), raw(RAW_MAX));
    assert_eq!(big.scaled(-3, 1), raw(RAW_MIN));
    assert_eq!(raw(7).scaled(1, 2), raw(3));
    assert_eq!(raw(-7).scaled(1, 2), raw(-3));
    assert_eq!(raw(7).scaled(1, -2), raw(-3));
    assert_eq!(raw(-7).scaled(-1, -2), raw(-3));
    assert_eq!(raw(RAW_MIN).scaled(1, -1), raw(RAW_MAX));
    assert_eq!(raw(RAW_MIN).scaled(RAW_MIN, RAW_MIN), raw(RAW_MIN));
}

#[test]
fn scaling_by_equal_terms_changes_nothing() {
    for v in [0, 1, -1, 123_456_789, -987_654_321, RAW_MAX, RAW_MIN] {
        assert_eq!(raw(v).scaled(726_000_000, 726_000_000), raw(v));
        assert_eq!(raw(v).scaled(-3, -3), raw(v));
    }
}

#[test]
fn remainder_carries_the_sign_of_the_dividend() {
    assert_eq!(Fixed::from_int(250).rem(Fixed::from_int(200)), Fixed::from_int(50));
    assert_eq!(Fixed::from_int(-250).rem(Fixed::from_int(200)), Fixed::from_int(-50));
    assert_eq!(Fixed::from_int(250).rem(Fixed::from_int(-200)), Fixed::from_int(50));
    assert_eq!(Fixed::from_int(100).rem(Fixed::from_int(200)), Fixed::from_int(100));
    assert_eq!(Fixed::from_int(200).rem(Fixed::from_int(200)), Fixed::from_int(0));
    assert_eq!(raw(RAW_MIN).rem(raw(RAW_MIN)), raw(0));
    assert_eq!(raw(RAW_MIN).rem(raw(RAW_MAX)), raw(-1));
}

#[test]
fn smaller_and_larger() {
    assert_eq!(raw(3).min(raw(5)), raw(3));
    assert_eq!(raw(5).min(raw(3)), raw(3));
    assert_eq!(raw(3).max(raw(5)), raw(5));
    assert_eq!(raw(-3).max(raw(-5)), raw(-3));
    assert_eq!(raw(4).min(raw(4)), raw(4));
}
