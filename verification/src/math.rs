//! Checked fixed-point arithmetic helpers over wide (128-bit) intermediates.
//!
//! The pool's and the perpetual market's multiply-then-divide steps route
//! through [`mul_div`], the first-deposit share formula through [`isqrt`],
//! and the swap quote widens its three products to 128 bits itself; raw
//! 64-bit multiplication before division would silently truncate and is
//! never used.

use vstd::prelude::*;

verus! {

/// Failure of a checked arithmetic helper. Arithmetic failures are kept
/// apart from business-rule failures so that callers can react differently.
#[derive(Clone, Copy, Debug, PartialEq, Eq, Structural)]
pub enum MathError {
    /// The mathematical result does not fit in 64 bits.
    ArithmeticOverflow,
    /// The divisor was zero.
    DivisionByZero,
}

/// The absolute value of a signed 64-bit quantity, as an unbounded integer.
pub open spec fn abs64(s: int) -> int {
    if s < 0 {
        -s
    } else {
        s
    }
}

/// The smaller of two integers.
pub open spec fn min_int(a: int, b: int) -> int {
    if a <= b {
        a
    } else {
        b
    }
}

/// The larger of two integers.
pub open spec fn max_int(a: int, b: int) -> int {
    if a >= b {
        a
    } else {
        b
    }
}

/// A part scaled up and divided by the whole never exceeds the scale:
/// `part * scale / whole <= scale` whenever `part <= whole`.
pub proof fn lemma_scaled_ratio_le(part: int, whole: int, scale: int)
    requires
        0 <= part <= whole,
        0 < whole,
        0 <= scale,
    ensures
        part * scale / whole <= scale,
{
    vstd::arithmetic::mul::lemma_mul_inequality(part, whole, scale);
    vstd::arithmetic::div_mod::lemma_div_is_ordered(part * scale, whole * scale, whole);
    vstd::arithmetic::div_mod::lemma_div_multiples_vanish(scale, whole);
}

/// Floor of the square root of a non-negative integer, defined by recursion:
/// the root grows by one exactly when the next perfect square is reached.
pub open spec fn sqrt_floor(x: int) -> int
    decreases x,
{
    if x < 1 {
        0
    } else {
        let r = sqrt_floor(x - 1);
        if (r + 1) * (r + 1) <= x {
            r + 1
        } else {
            r
        }
    }
}

/// `sqrt_floor(x)` is a non-negative integer whose square is at most `x`
/// while the next square exceeds `x`.
pub proof fn lemma_sqrt_floor_bounds(x: int)
    requires
        0 <= x,
    ensures
        0 <= sqrt_floor(x),
        sqrt_floor(x) * sqrt_floor(x) <= x,
        x < (sqrt_floor(x) + 1) * (sqrt_floor(x) + 1),
    decreases x,
{
    if x < 1 {
        assert(sqrt_floor(x) == 0);
    } else {
        lemma_sqrt_floor_bounds(x - 1);
        let r = sqrt_floor(x - 1);
        if (r + 1) * (r + 1) <= x {
            assert(x - 1 < (r + 1) * (r + 1));
            assert((r + 1 + 1) * (r + 1 + 1) > (r + 1) * (r + 1)) by (nonlinear_arith)
                requires
                    0 <= r,
            ;
        }
    }
}

/// A squeeze `r*r <= x < (r+1)*(r+1)` pins the floor square root down.
pub proof fn lemma_sqrt_floor_unique(x: int, r: int)
    requires
        0 <= x,
        0 <= r,
        r * r <= x,
        x < (r + 1) * (r + 1),
    ensures
        r == sqrt_floor(x),
{
    lemma_sqrt_floor_bounds(x);
    let s = sqrt_floor(x);
    if r < s {
        assert((r + 1) * (r + 1) <= s * s) by (nonlinear_arith)
            requires
                0 <= r,
                r + 1 <= s,
        ;
        assert(false);
    }
    if s < r {
        assert((s + 1) * (s + 1) <= r * r) by (nonlinear_arith)
            requires
                0 <= s,
                s + 1 <= r,
        ;
        assert(false);
    }
}

/// The product of two 64-bit values always fits in 128 bits.
pub proof fn lemma_u64_product_fits_u128(a: int, b: int)
    by (nonlinear_arith)
    requires
        0 <= a <= u64::MAX,
        0 <= b <= u64::MAX,
    ensures
        0 <= a * b <= u64::MAX * u64::MAX,
        a * b <= u128::MAX,
{
}

/// `a * b / denom`, computed through a 128-bit intermediate so the product
/// never wraps. Fails with `DivisionByZero` when `denom == 0`, and with
/// `ArithmeticOverflow` when the quotient itself does not fit in 64 bits.
pub fn mul_div(a: u64, b: u64, denom: u64) -> (r: Result<u64, MathError>)
    ensures
        denom == 0 <==> r == Err::<u64, MathError>(MathError::DivisionByZero),
        denom != 0 && a * b / (denom as int) > u64::MAX <==> r == Err::<u64, MathError>(
            MathError::ArithmeticOverflow,
        ),
        denom != 0 && a * b / (denom as int) <= u64::MAX ==> r == Ok::<u64, MathError>(
            ((a * b / (denom as int)) as u64),
        ),
{
    if denom == 0 {
        return Err(MathError::DivisionByZero);
    }
    proof {
        lemma_u64_product_fits_u128(a as int, b as int);
    }
    let wide: u128 = (a as u128) * (b as u128);
    let quotient: u128 = wide / (denom as u128);
    if quotient > u64::MAX as u128 {
        Err(MathError::ArithmeticOverflow)
    } else {
        Ok(quotient as u64)
    }
}

/// Integer square root (floor) of a 128-bit value, by binary search over the
/// 64-bit result range.
pub fn isqrt(x: u128) -> (r: u64)
    ensures
        r == sqrt_floor(x as int),
{
    let mut lo: u64 = 0;
    let mut hi: u64 = u64::MAX;
    while lo < hi
        invariant
            lo <= hi,
            (lo as int) * (lo as int) <= x as int,
            (x as int) < ((hi as int) + 1) * ((hi as int) + 1),
        decreases hi - lo,
    {
        let gap: u64 = hi - lo;
        let mid: u64 = lo + gap / 2 + gap % 2;
        proof {
            lemma_u64_product_fits_u128(mid as int, mid as int);
        }
        let square: u128 = (mid as u128) * (mid as u128);
        if square <= x {
            lo = mid;
        } else {
            hi = mid - 1;
        }
    }
    proof {
        lemma_sqrt_floor_unique(x as int, lo as int);
    }
    lo
}

/// The magnitude of a signed position size as an unsigned 64-bit value;
/// total even on the most negative input.
pub fn abs_i64(s: i64) -> (r: u64)
    ensures
        r == abs64(s as int),
{
    if s >= 0 {
        s as u64
    } else {
        (-(s as i128)) as u64
    }
}

} // verus!
