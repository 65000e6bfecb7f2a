//! The fixed-point scalar operations on concrete values.

use planet_shading::fixed::{
    fx_add, fx_div, fx_max0, fx_mul, fx_sin, fx_sqrt, fx_sub, PI_FX, SCALE, TAU_FX,
};

#[test]
fn add_and_sub_exact() {
    assert_eq!(fx_add(1_500_000, 250_000), 1_750_000);
    assert_eq!(fx_sub(250_000, 1_000_000), -750_000);
    assert_eq!(fx_add(-250_000, 250_000), 0);
}

#[test]
fn add_saturates_at_the_i64_bounds() {
    assert_eq!(fx_add(i64::MAX, 1), i64::MAX);
    assert_eq!(fx_sub(i64::MIN, 1), i64::MIN);
}

#[test]
fn mul_rescales_and_truncates_toward_zero() {
    assert_eq!(fx_mul(2_000_000, 3_000_000), 6_000_000);
    assert_eq!(fx_mul(-2_000_000, 500_000), -1_000_000);
    assert_eq!(fx_mul(1, 1), 0);
    assert_eq!(fx_mul(-1, 1), 0);
    assert_eq!(fx_mul(1_999_999, 1), 1);
    assert_eq!(fx_mul(-1_999_999, 1), -1);
}

#[test]
fn div_rescales_and_truncates_toward_zero() {
    assert_eq!(fx_div(1_000_000, 3_000_000), 333_333);
    assert_eq!(fx_div(-1_000_000, 3_000_000), -333_333);
    assert_eq!(fx_div(7_000_000, 2_000_000), 3_500_000);
    assert_eq!(fx_div(1_000_000, -2_000_000), -500_000);
}

#[test]
fn max0_clamps_negatives() {
    assert_eq!(fx_max0(-5), 0);
    assert_eq!(fx_max0(0), 0);
    assert_eq!(fx_max0(7), 7);
}

#[test]
fn sqrt_on_perfect_and_imperfect_squares() {
    assert_eq!(fx_sqrt(0), 0);
    assert_eq!(fx_sqrt(SCALE), SCALE);
    assert_eq!(fx_sqrt(4_000_000), 2_000_000);
    // The square root of two, truncated to six decimal places.
    assert_eq!(fx_sqrt(2_000_000), 1_414_213);
}

#[test]
fn sin_at_the_axis_crossings() {
    assert_eq!(fx_sin(0), 0);
    assert_eq!(fx_sin(PI_FX), 0);
    assert_eq!(fx_sin(TAU_FX), 0);
}

#[test]
fn sin_peaks_near_one_and_mirrors() {
    let quarter = PI_FX / 2;
    let s = fx_sin(quarter);
    assert!(s > 990_000 && s <= SCALE, "sin at a quarter turn was {s}");
    // The second half turn is the negated mirror of the first.
    assert_eq!(fx_sin(PI_FX + quarter), -s);
    // Full turns reduce away.
    assert_eq!(fx_sin(quarter + TAU_FX), s);
    assert_eq!(fx_sin(quarter - TAU_FX), s);
}

#[test]
fn sin_stays_in_range() {
    let mut a: i64 = -10_000_000;
    while a <= 10_000_000 {
        let s = fx_sin(a);
        assert!(-SCALE <= s && s <= SCALE, "sin({a}) = {s} out of range");
        a += 137_101;
    }
}
