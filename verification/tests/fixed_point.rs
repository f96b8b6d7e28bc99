use flyer_control::fixed::{
    fx_abs, fx_add, fx_clamp, fx_clamp_sym, fx_div, fx_from_i32, fx_lerp, fx_mul, fx_neg,
    fx_sqrt, fx_sub, fx_to_i32, narrow, ONE,
};

#[test]
fn product_of_halves_is_a_quarter() {
    assert_eq!(fx_mul(ONE / 2, ONE / 2), ONE / 4);
}

#[test]
fn product_rounds_toward_zero() {
    assert_eq!(fx_mul(1, 999_999), 0);
    assert_eq!(fx_mul(-1, 999_999), 0);
    assert_eq!(fx_mul(-3, 500_000), -1);
    assert_eq!(fx_mul(3, 500_000), 1);
}

#[test]
fn product_saturates() {
    assert_eq!(fx_mul(i64::MAX, 2 * ONE), i64::MAX);
    assert_eq!(fx_mul(i64::MAX, -2 * ONE), i64::MIN);
    assert_eq!(fx_mul(i64::MIN, i64::MIN), i64::MAX);
}

#[test]
fn sum_saturates() {
    assert_eq!(fx_add(i64::MAX, 1), i64::MAX);
    assert_eq!(fx_add(i64::MIN, -1), i64::MIN);
    assert_eq!(fx_add(2, 3), 5);
}

#[test]
fn difference_saturates() {
    assert_eq!(fx_sub(i64::MIN, 1), i64::MIN);
    assert_eq!(fx_sub(i64::MAX, -1), i64::MAX);
    assert_eq!(fx_sub(2, 3), -1);
}

#[test]
fn negation_saturates() {
    assert_eq!(fx_neg(i64::MIN), i64::MAX);
    assert_eq!(fx_neg(5), -5);
    assert_eq!(fx_abs(i64::MIN), i64::MAX);
    assert_eq!(fx_abs(-7), 7);
}

#[test]
fn narrow_saturates() {
    assert_eq!(narrow(i128::MAX), i64::MAX);
    assert_eq!(narrow(i128::MIN), i64::MIN);
    assert_eq!(narrow(-12), -12);
}

#[test]
fn quotient_is_exact_where_it_divides() {
    assert_eq!(fx_div(ONE, 4 * ONE), ONE / 4);
    assert_eq!(fx_div(-ONE, 4 * ONE), -ONE / 4);
    assert_eq!(fx_div(ONE, -4 * ONE), -ONE / 4);
    assert_eq!(fx_div(10 * ONE, 1_000), 10_000 * ONE);
}

#[test]
fn quotient_rounds_toward_zero() {
    assert_eq!(fx_div(1, 3 * ONE), 0);
    assert_eq!(fx_div(-1, 3 * ONE), 0);
    assert_eq!(fx_div(ONE, 3 * ONE), 333_333);
    assert_eq!(fx_div(-ONE, 3 * ONE), -333_333);
}

#[test]
fn quotient_by_zero_saturates_toward_the_sign() {
    assert_eq!(fx_div(5, 0), i64::MAX);
    assert_eq!(fx_div(-5, 0), i64::MIN);
    assert_eq!(fx_div(0, 0), 0);
}

#[test]
fn lerp_moves_by_the_fraction() {
    assert_eq!(fx_lerp(0, 10 * ONE, ONE / 2), 5 * ONE);
    assert_eq!(fx_lerp(10 * ONE, 0, ONE / 4), 7_500_000);
    assert_eq!(fx_lerp(3 * ONE, 9 * ONE, 0), 3 * ONE);
    assert_eq!(fx_lerp(3 * ONE, 9 * ONE, ONE), 9 * ONE);
}

#[test]
fn clamp_limits_to_the_interval() {
    assert_eq!(fx_clamp(5, 0, 3), 3);
    assert_eq!(fx_clamp(-5, 0, 3), 0);
    assert_eq!(fx_clamp(2, 0, 3), 2);
    assert_eq!(fx_clamp(7, 7, 7), 7);
}

#[test]
fn symmetric_clamp_takes_the_magnitude_of_the_bound() {
    assert_eq!(fx_clamp_sym(9, 4), 4);
    assert_eq!(fx_clamp_sym(-9, 4), -4);
    assert_eq!(fx_clamp_sym(9, -4), 4);
    assert_eq!(fx_clamp_sym(3, -4), 3);
    assert_eq!(fx_clamp_sym(i64::MIN, i64::MIN), -i64::MAX);
}

#[test]
fn whole_numbers_convert_both_ways() {
    assert_eq!(fx_from_i32(-7), -7 * ONE);
    assert_eq!(fx_to_i32(-7 * ONE), -7);
    assert_eq!(fx_to_i32(7 * ONE + 999_999), 7);
    assert_eq!(fx_to_i32(-7 * ONE - 999_999), -7);
    assert_eq!(fx_to_i32(i64::MAX), i32::MAX);
    assert_eq!(fx_to_i32(i64::MIN), i32::MIN);
}

#[test]
fn root_of_a_quarter_is_a_half() {
    assert_eq!(fx_sqrt(ONE / 4), ONE / 2);
    assert_eq!(fx_sqrt(0), 0);
    assert_eq!(fx_sqrt(-1), 0);
    assert_eq!(fx_sqrt(2 * ONE), 1_414_213);
    assert_eq!(fx_sqrt(90_000), 300_000);
}

#[test]
fn root_is_the_largest_whose_square_fits() {
    for a in [1i64, 2, 3, 999_999, 123_456_789, i64::MAX] {
        let r = fx_sqrt(a) as i128;
        let n = a as i128 * ONE as i128;
        assert!(r * r <= n);
        assert!(n < (r + 1) * (r + 1));
    }
}
