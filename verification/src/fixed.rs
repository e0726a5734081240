//! Fixed-point arithmetic on `i64`.
//!
//! A real quantity `q` is stored as the integer `q * UNIT`. Sums and
//! products are computed exactly and then clamped into the range of `i64`,
//! so no operation here can overflow.

use vstd::prelude::*;
use crate::UNIT;

verus! {

/// The value of `i64` nearest to `v`.
pub open spec fn clamp_i64(v: int) -> i64 {
    if v < i64::MIN {
        i64::MIN
    } else if v > i64::MAX {
        i64::MAX
    } else {
        v as i64
    }
}

/// Quotient of `n` by a positive `d`, rounded towards zero.
pub open spec fn div_to_zero(n: int, d: int) -> int {
    if n >= 0 {
        n / d
    } else {
        -((-n) / d)
    }
}

/// Fixed-point sum: `a + b`, clamped.
pub open spec fn fx_add_spec(a: i64, b: i64) -> i64 {
    clamp_i64(a + b)
}

/// Fixed-point difference: `a - b`, clamped.
pub open spec fn fx_sub_spec(a: i64, b: i64) -> i64 {
    clamp_i64(a - b)
}

/// Fixed-point product: `a * b / UNIT`, rounded towards zero and clamped.
pub open spec fn fx_mul_spec(a: i64, b: i64) -> i64 {
    clamp_i64(div_to_zero(a * b, UNIT as int))
}

/// Clamps a wide intermediate result into `i64`.
pub fn clamp_wide(v: i128) -> (r: i64)
    ensures
        r == clamp_i64(v as int),
{
    if v < i64::MIN as i128 {
        i64::MIN
    } else if v > i64::MAX as i128 {
        i64::MAX
    } else {
        v as i64
    }
}

/// Fixed-point sum of `a` and `b`.
pub fn fx_add(a: i64, b: i64) -> (r: i64)
    ensures
        r == fx_add_spec(a, b),
{
    clamp_wide(a as i128 + b as i128)
}

/// Fixed-point difference of `a` and `b`.
pub fn fx_sub(a: i64, b: i64) -> (r: i64)
    ensures
        r == fx_sub_spec(a, b),
{
    clamp_wide(a as i128 - b as i128)
}

/// The product of two `i64` values has a magnitude of at most `2^126`.
proof fn lemma_product_bound(a: int, b: int)
    requires
        -0x8000_0000_0000_0000 <= a <= 0x8000_0000_0000_0000,
        -0x8000_0000_0000_0000 <= b <= 0x8000_0000_0000_0000,
    ensures
        -0x4000_0000_0000_0000_0000_0000_0000_0000 <= a * b
            <= 0x4000_0000_0000_0000_0000_0000_0000_0000,
{
    assert(-0x4000_0000_0000_0000_0000_0000_0000_0000 <= a * b
        <= 0x4000_0000_0000_0000_0000_0000_0000_0000) by (nonlinear_arith)
        requires
            -0x8000_0000_0000_0000 <= a <= 0x8000_0000_0000_0000,
            -0x8000_0000_0000_0000 <= b <= 0x8000_0000_0000_0000,
    ;
}

/// Fixed-point product of `a` and `b`.
pub fn fx_mul(a: i64, b: i64) -> (r: i64)
    ensures
        r == fx_mul_spec(a, b),
{
    proof {
        lemma_product_bound(a as int, b as int);
    }
    let wide: i128 = a as i128 * b as i128;
    let unit: i128 = UNIT as i128;
    if wide >= 0 {
        clamp_wide(wide / unit)
    } else {
        clamp_wide(-((-wide) / unit))
    }
}

} // verus!
