//! Integer helpers shared by the simulation steps: clamping, saturation and
//! division that rounds toward zero.

use vstd::prelude::*;

verus! {

/// `v` limited to the closed interval `[lo, hi]`.
pub open spec fn clamp_int(v: int, lo: int, hi: int) -> int {
    if v < lo {
        lo
    } else if v > hi {
        hi
    } else {
        v
    }
}

/// `v` limited to what an `i64` holds.
pub open spec fn saturate(v: int) -> int {
    clamp_int(v, i64::MIN as int, i64::MAX as int)
}

/// The quotient of `a` by a positive `b`, rounded toward zero.
pub open spec fn div_toward_zero(a: int, b: int) -> int {
    if a >= 0 {
        a / b
    } else {
        -((-a) / b)
    }
}

/// Limits `v` to `[lo, hi]`.
pub fn clamp_i128(v: i128, lo: i64, hi: i64) -> (r: i64)
    requires
        lo <= hi,
    ensures
        r == clamp_int(v as int, lo as int, hi as int),
        lo <= r <= hi,
{
    if v < lo as i128 {
        lo
    } else if v > hi as i128 {
        hi
    } else {
        v as i64
    }
}

/// Divides by a positive number, rounding toward zero.
pub fn quotient_toward_zero(a: i64, b: i64) -> (r: i64)
    requires
        b >= 1,
    ensures
        r == div_toward_zero(a as int, b as int),
        a >= 0 ==> 0 <= r <= a,
        a < 0 ==> a <= r <= 0,
{
    if a >= 0 {
        let q: u64 = (a as u64) / (b as u64);
        assert(q <= a as u64) by (nonlinear_arith)
            requires
                q == (a as u64) / (b as u64),
                b >= 1,
                a >= 0,
        ;
        q as i64
    } else {
        let m: u64 = (-(a as i128)) as u64;
        let q: u64 = m / (b as u64);
        assert(q <= m) by (nonlinear_arith)
            requires
                q == m / (b as u64),
                b >= 1,
        ;
        (-(q as i128)) as i64
    }
}

/// Adds a displacement to a coordinate, stopping at the ends of the `i64` range.
pub fn saturating_offset(pos: i64, step: i64) -> (r: i64)
    ensures
        r == saturate(pos as int + step as int),
{
    clamp_i128(pos as i128 + step as i128, i64::MIN, i64::MAX)
}

} // verus!
