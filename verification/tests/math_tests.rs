use dex_core::math::{abs_i64, isqrt, mul_div, MathError};

#[test]
fn mul_div_exact() {
    assert_eq!(mul_div(6, 7, 2), Ok(21));
    assert_eq!(mul_div(100, 200, 1000), Ok(20));
    assert_eq!(mul_div(0, u64::MAX, 3), Ok(0));
}

#[test]
fn mul_div_floors() {
    assert_eq!(mul_div(7, 3, 2), Ok(10));
    assert_eq!(mul_div(1, 1, 2), Ok(0));
}

#[test]
fn mul_div_zero_denominator() {
    assert_eq!(mul_div(1, 1, 0), Err(MathError::DivisionByZero));
    assert_eq!(mul_div(0, 0, 0), Err(MathError::DivisionByZero));
}

#[test]
fn mul_div_overflow() {
    assert_eq!(
        mul_div(u64::MAX, u64::MAX, 1),
        Err(MathError::ArithmeticOverflow)
    );
    assert_eq!(mul_div(u64::MAX, 2, 2), Ok(u64::MAX));
}

#[test]
fn mul_div_wide_intermediate() {
    // The 128-bit intermediate keeps a product beyond 64 bits exact.
    assert_eq!(mul_div(u64::MAX, 1000, 2000), Ok(u64::MAX / 2));
}

#[test]
fn isqrt_small_values() {
    assert_eq!(isqrt(0), 0);
    assert_eq!(isqrt(1), 1);
    assert_eq!(isqrt(3), 1);
    assert_eq!(isqrt(4), 2);
    assert_eq!(isqrt(40000), 200);
    assert_eq!(isqrt(40001), 200);
    assert_eq!(isqrt(39999), 199);
}

#[test]
fn isqrt_extremes() {
    assert_eq!(isqrt(u128::MAX), u64::MAX);
    let max_square = (u64::MAX as u128) * (u64::MAX as u128);
    assert_eq!(isqrt(max_square), u64::MAX);
    assert_eq!(isqrt(max_square - 1), u64::MAX - 1);
}

#[test]
fn abs_i64_total() {
    assert_eq!(abs_i64(5), 5);
    assert_eq!(abs_i64(-5), 5);
    assert_eq!(abs_i64(0), 0);
    assert_eq!(abs_i64(i64::MIN), 9223372036854775808);
    assert_eq!(abs_i64(i64::MAX), 9223372036854775807);
}
