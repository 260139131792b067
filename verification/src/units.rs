//! Fixed-point quantities.
//!
//! Distances, times, speeds, scales and probabilities-as-levels are all held
//! as `i64` counts of millionths: [`UNIT`] stands for `1.0`.

use vstd::prelude::*;

verus! {

/// The fixed-point representation of `1.0`.
pub const UNIT: i64 = 1_000_000;

/// `x` limited to the closed interval `[lo, hi]`.
pub open spec fn clamped(x: int, lo: int, hi: int) -> int {
    if x < lo {
        lo
    } else if x > hi {
        hi
    } else {
        x
    }
}

/// `x` limited to what an `i64` can hold.
pub open spec fn saturated(x: int) -> int {
    clamped(x, i64::MIN as int, i64::MAX as int)
}

/// The quotient `n / d` rounded towards zero, for a positive divisor.
pub open spec fn div_toward_zero(n: int, d: int) -> int {
    if n >= 0 {
        n / d
    } else {
        -((-n) / d)
    }
}

/// Limits `x` to `[lo, hi]`.
pub fn clamp_to(x: i64, lo: i64, hi: i64) -> (r: i64)
    requires
        lo <= hi,
    ensures
        r == clamped(x as int, lo as int, hi as int),
{
    if x < lo {
        lo
    } else if x > hi {
        hi
    } else {
        x
    }
}

/// Adds two quantities, stopping at the ends of the `i64` range.
pub fn sat_add(a: i64, b: i64) -> (r: i64)
    ensures
        r == saturated(a + b),
{
    match a.checked_add(b) {
        Some(s) => s,
        None => if b > 0 {
            i64::MAX
        } else {
            i64::MIN
        },
    }
}

/// Subtracts one quantity from another, stopping at the ends of the `i64`
/// range.
pub fn sat_sub(a: i64, b: i64) -> (r: i64)
    ensures
        r == saturated(a - b),
{
    match a.checked_sub(b) {
        Some(d) => d,
        None => if b < 0 {
            i64::MAX
        } else {
            i64::MIN
        },
    }
}

/// The product of two `i64` values fits an `i128`.
pub proof fn lemma_product_fits(a: int, b: int)
    requires
        i64::MIN <= a <= i64::MAX,
        i64::MIN <= b <= i64::MAX,
    ensures
        i128::MIN <= a * b <= i128::MAX,
{
    assert(-0x4000_0000_0000_0000_0000_0000_0000_0000 <= a * b
        <= 0x4000_0000_0000_0000_0000_0000_0000_0000) by (nonlinear_arith)
        requires
            -0x8000_0000_0000_0000 <= a <= 0x8000_0000_0000_0000,
            -0x8000_0000_0000_0000 <= b <= 0x8000_0000_0000_0000,
    ;
}

/// Brings a wide value back into the `i64` range.
pub fn narrow(x: i128) -> (r: i64)
    ensures
        r == saturated(x as int),
{
    if x > i64::MAX as i128 {
        i64::MAX
    } else if x < i64::MIN as i128 {
        i64::MIN
    } else {
        x as i64
    }
}

/// Multiplies a quantity by a plain number, stopping at the ends of the
/// `i64` range.
pub fn sat_scale(x: i64, times: i64) -> (r: i64)
    ensures
        r == saturated(x * times),
{
    proof {
        lemma_product_fits(x as int, times as int);
    }
    narrow((x as i128) * (times as i128))
}

/// The fixed-point product of two quantities, rounded towards zero.
pub open spec fn product(a: int, b: int) -> int {
    div_toward_zero(a * b, UNIT as int)
}

/// Multiplies two quantities, rounding towards zero and stopping at the
/// ends of the `i64` range.
pub fn sat_mul(a: i64, b: i64) -> (r: i64)
    ensures
        r == saturated(product(a as int, b as int)),
{
    proof {
        lemma_product_fits(a as int, b as int);
    }
    narrow((a as i128) * (b as i128) / (UNIT as i128))
}

} // verus!
