//! Exact-value tests for the fixed-point scalar operations.

use viewer_core::fixed::{fx_cos, fx_div, fx_divn, fx_mag3, fx_mul, fx_sin, isqrt};
use viewer_core::SCALE;

#[test]
fn mul_is_exact_at_unit_scale() {
    // 1.5 * 2.0 == 3.0
    assert_eq!(fx_mul(1_500_000, 2_000_000), Some(3_000_000));
}

#[test]
fn mul_truncates_toward_zero() {
    // The smallest positive values truncate to zero from both sides.
    assert_eq!(fx_mul(1, 1), Some(0));
    assert_eq!(fx_mul(-1, 1), Some(0));
    assert_eq!(fx_mul(1_500_000, -1_000_000), Some(-1_500_000));
}

#[test]
fn mul_overflow_is_detected() {
    // (4 * 10^9)^2 model units is far past the storable range.
    assert_eq!(fx_mul(4_000_000_000_000_000, 4_000_000_000_000_000), None);
}

#[test]
fn div_is_exact() {
    // 2.0 / 0.0001 == 20000.0
    assert_eq!(fx_div(2_000_000, 100), Some(20_000_000_000));
    // 4.0 / -3.0 truncates toward zero.
    assert_eq!(fx_div(4_000_000, -3_000_000), Some(-1_333_333));
}

#[test]
fn div_by_zero_is_none() {
    assert_eq!(fx_div(1_000_000, 0), None);
}

#[test]
fn divn_truncates_toward_zero() {
    assert_eq!(fx_divn(7, 2), 3);
    assert_eq!(fx_divn(-7, 2), -3);
}

#[test]
fn isqrt_exact_values() {
    assert_eq!(isqrt(0), 0);
    assert_eq!(isqrt(1), 1);
    assert_eq!(isqrt(10100), 100);
    assert_eq!(isqrt(1_000_000_000_000), 1_000_000);
    assert_eq!(isqrt(u128::MAX), u64::MAX);
}

#[test]
fn magnitude_of_axis_vector() {
    assert_eq!(fx_mag3(0, 0, -100), Some(100));
    assert_eq!(fx_mag3(90, 90, -100), Some(161));
}

#[test]
fn sine_series_at_one_radian() {
    // 1 - 1/6 + 1/120 - 1/5040, truncated per term.
    assert_eq!(fx_sin(SCALE), Some(841_469));
    assert_eq!(fx_sin(0), Some(0));
    // The float value of sin(1) is 0.841471...: the series with
    // truncation lands within a few millionths of it.
    let s = fx_sin(SCALE).unwrap() as f64 / SCALE as f64;
    assert!((s - 1.0f64.sin()).abs() < 1e-5);
}

#[test]
fn cosine_series_at_one_radian() {
    assert_eq!(fx_cos(SCALE), Some(540_278));
    assert_eq!(fx_cos(0), Some(SCALE));
    let c = fx_cos(SCALE).unwrap() as f64 / SCALE as f64;
    assert!((c - 1.0f64.cos()).abs() < 1e-4);
}
