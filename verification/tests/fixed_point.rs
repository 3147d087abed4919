//! Unit tests for the fixed-point core and the model's elementary
//! functions.

use cyclogenesis::fixed::{fp_div, fp_mul, SCALE};
use cyclogenesis::approx::{exp_fp, isqrt, sin_deg_fp, sqrt_fp};

#[test]
fn fp_mul_rescales_and_truncates_toward_zero() {
    // 1.5 * 2.5 = 3.75
    assert_eq!(fp_mul(1_500_000_000, 2_500_000_000), 3_750_000_000);
    // rounding is toward zero on both sides
    assert_eq!(fp_mul(1, 1_999_999_999), 1);
    assert_eq!(fp_mul(-1, 1_999_999_999), -1);
    assert_eq!(fp_mul(1, -1_999_999_999), -1);
    assert_eq!(fp_mul(-1, -1_999_999_999), 1);
    // multiplying by one is the identity
    assert_eq!(fp_mul(123_456_789_123, SCALE), 123_456_789_123);
    assert_eq!(fp_mul(0, 987_654_321), 0);
}

#[test]
fn fp_div_rescales_and_truncates_toward_zero() {
    // 1 / 3 in nano units
    assert_eq!(fp_div(1_000_000_000, 3_000_000_000), 333_333_333);
    assert_eq!(fp_div(-1_000_000_000, 3_000_000_000), -333_333_333);
    // dividing by one is the identity
    assert_eq!(fp_div(42_000_000_000, SCALE), 42_000_000_000);
}

#[test]
fn isqrt_exact_values() {
    assert_eq!(isqrt(0), 0);
    assert_eq!(isqrt(1), 1);
    assert_eq!(isqrt(3), 1);
    assert_eq!(isqrt(4), 2);
    assert_eq!(isqrt(999_999), 999);
    assert_eq!(isqrt(1_000_000), 1000);
    assert_eq!(isqrt(10_000_000_000_000_000_000), 3_162_277_660);
}

#[test]
fn sqrt_fp_exact_values() {
    // sqrt(4) = 2, sqrt(1) = 1, sqrt(0) = 0
    assert_eq!(sqrt_fp(4_000_000_000), 2_000_000_000);
    assert_eq!(sqrt_fp(SCALE), SCALE);
    assert_eq!(sqrt_fp(0), 0);
    // sqrt(2) to nano precision, truncated
    assert_eq!(sqrt_fp(2_000_000_000), 1_414_213_562);
}

#[test]
fn sine_is_exact_at_the_reference_angles() {
    // the rational approximation is exact at 0, 30 and 90 degrees
    assert_eq!(sin_deg_fp(0), 0);
    assert_eq!(sin_deg_fp(30 * SCALE), 500_000_000);
    assert_eq!(sin_deg_fp(90 * SCALE), SCALE);
    // and odd
    assert_eq!(sin_deg_fp(-30 * SCALE), -500_000_000);
    assert_eq!(sin_deg_fp(-90 * SCALE), -SCALE);
    // 45 degrees: 24300/34425 scaled, truncated
    assert_eq!(sin_deg_fp(45 * SCALE), 705_882_352);
}

#[test]
fn exp_is_one_at_zero_and_decays() {
    assert_eq!(exp_fp(0), SCALE);
    // a negative argument decays below one, a positive one grows
    let quarter = exp_fp(-250_000_000);
    assert!(quarter < SCALE);
    assert!(quarter > 700_000_000); // e^(-0.25) is about 0.7788
    assert!(quarter < 800_000_000);
    let up = exp_fp(50_000_000);
    assert!(up > SCALE);
    assert!(up < 1_060_000_000); // e^(0.05) is about 1.0513
    // deepest admissible decay stays positive
    let deep = exp_fp(-2_500_000_000);
    assert!(deep > 0);
    assert!(deep < 100_000_000); // e^(-2.5) is about 0.0821
}
