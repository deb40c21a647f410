//! Fixed-point scalars for UI geometry.
//!
//! Every length, coordinate, percentage, color component and rotation in this
//! crate is an `i64` holding micro-units: `FX_ONE` units stand for one pixel
//! (or for 1.0 of a dimensionless quantity such as a percentage or a color
//! channel). Products and quotients are evaluated exactly in 128-bit
//! arithmetic, rounded toward zero, and saturated to the representable range
//! `[-COORD_MAX, COORD_MAX]`, so every operation is total and its result is
//! pinned by a spec function.

use vstd::prelude::*;

verus! {

/// Number of fixed-point units in 1.0 (one pixel, or 100% of one).
pub const FX_ONE: i64 = 1_000_000;

/// Largest magnitude a geometric scalar may take: one billion pixels.
/// Arithmetic saturates here instead of wrapping or trapping.
pub const COORD_MAX: i64 = 1_000_000_000_000_000;

/// A scalar within the representable coordinate range.
pub open spec fn fx_ok(x: int) -> bool {
    -COORD_MAX <= x <= COORD_MAX
}

/// Saturate a mathematical integer into the coordinate range.
pub open spec fn clamp_fx(x: int) -> int {
    if x > COORD_MAX as int {
        COORD_MAX as int
    } else if x < -COORD_MAX as int {
        -COORD_MAX as int
    } else {
        x
    }
}

/// Division rounding toward zero (the ghost `/` rounds toward negative
/// infinity on negative dividends; executable code matches this function).
pub open spec fn tdiv(a: int, b: int) -> int
    recommends
        b > 0,
{
    if a >= 0 {
        a / b
    } else {
        -((-a) / b)
    }
}

/// The product of two fixed-point scalars: `(a * b) / FX_ONE`, saturated.
pub open spec fn fx_mul_spec(a: int, b: int) -> int {
    clamp_fx(tdiv(a * b, FX_ONE as int))
}

/// The quotient of two fixed-point scalars: `(a * FX_ONE) / b`, saturated.
pub open spec fn fx_div_spec(a: int, b: int) -> int
    recommends
        b > 0,
{
    clamp_fx(tdiv(a * FX_ONE as int, b))
}

/// Division toward zero of an exact multiple recovers the factor:
/// `tdiv(d * k, d) == k`.
pub proof fn lemma_tdiv_multiples_vanish(k: int, d: int)
    requires
        d > 0,
    ensures
        tdiv(d * k, d) == k,
{
    if d * k >= 0 {
        vstd::arithmetic::div_mod::lemma_div_multiples_vanish(k, d);
    } else {
        assert(-(d * k) == d * (-k)) by (nonlinear_arith);
        vstd::arithmetic::div_mod::lemma_div_multiples_vanish(-k, d);
    }
}

/// Saturate a 128-bit intermediate back into the scalar range.
pub fn clamp_i128(x: i128) -> (r: i64)
    ensures
        r == clamp_fx(x as int),
        fx_ok(r as int),
{
    if x > COORD_MAX as i128 {
        COORD_MAX
    } else if x < -COORD_MAX as i128 {
        -COORD_MAX
    } else {
        x as i64
    }
}

/// Saturate a 64-bit value into the scalar range.
pub fn clamp_i64(x: i64) -> (r: i64)
    ensures
        r == clamp_fx(x as int),
        fx_ok(r as int),
{
    if x > COORD_MAX {
        COORD_MAX
    } else if x < -COORD_MAX {
        -COORD_MAX
    } else {
        x
    }
}

/// 128-bit division rounding toward zero.
pub(crate) fn tdiv_i128(a: i128, b: i128) -> (r: i128)
    requires
        b > 0,
        a > i128::MIN,
    ensures
        r == tdiv(a as int, b as int),
{
    if a >= 0 {
        let q: u128 = (a as u128) / (b as u128);
        proof {
            assert((a as u128) == a as int && (b as u128) == b as int);
            assert(q <= a as u128) by (nonlinear_arith)
                requires
                    q == (a as u128) / (b as u128),
                    b as u128 >= 1,
            ;
        }
        q as i128
    } else {
        let n: i128 = -a;
        let q: u128 = (n as u128) / (b as u128);
        proof {
            assert((n as u128) == n as int && (b as u128) == b as int);
            assert(q <= n as u128) by (nonlinear_arith)
                requires
                    q == (n as u128) / (b as u128),
                    b as u128 >= 1,
            ;
        }
        -(q as i128)
    }
}

/// 64-bit division rounding toward zero.
pub fn tdiv_i64(a: i64, b: i64) -> (r: i64)
    requires
        b > 0,
        a > i64::MIN,
    ensures
        r == tdiv(a as int, b as int),
{
    let q = tdiv_i128(a as i128, b as i128);
    proof {
        if a >= 0 {
            assert(0 <= q <= a) by (nonlinear_arith)
                requires
                    q == (a as int) / (b as int),
                    a >= 0,
                    b >= 1,
            ;
        } else {
            assert(0 <= -q <= -a) by (nonlinear_arith)
                requires
                    -q == (-a as int) / (b as int),
                    a < 0,
                    b >= 1,
            ;
        }
    }
    q as i64
}

/// Fixed-point multiplication, exact in 128 bits, saturated to the range.
pub fn fx_mul(a: i64, b: i64) -> (r: i64)
    ensures
        r == fx_mul_spec(a as int, b as int),
        fx_ok(r as int),
{
    let ai: i128 = a as i128;
    let bi: i128 = b as i128;
    proof {
        assert(i128::MIN < ai * bi < i128::MAX) by (nonlinear_arith)
            requires
                -0x8000_0000_0000_0000 <= ai <= 0x7fff_ffff_ffff_ffff,
                -0x8000_0000_0000_0000 <= bi <= 0x7fff_ffff_ffff_ffff,
        ;
    }
    let p: i128 = ai * bi;
    let q = tdiv_i128(p, FX_ONE as i128);
    clamp_i128(q)
}

/// Fixed-point division, exact in 128 bits, saturated to the range.
pub fn fx_div(a: i64, b: i64) -> (r: i64)
    requires
        b > 0,
    ensures
        r == fx_div_spec(a as int, b as int),
        fx_ok(r as int),
{
    let ai: i128 = a as i128;
    proof {
        assert(i128::MIN < ai * (FX_ONE as i128) < i128::MAX) by (nonlinear_arith)
            requires
                -0x8000_0000_0000_0000 <= ai <= 0x7fff_ffff_ffff_ffff,
                FX_ONE == 1_000_000,
        ;
    }
    let p: i128 = ai * (FX_ONE as i128);
    let q = tdiv_i128(p, b as i128);
    clamp_i128(q)
}

} // verus!
