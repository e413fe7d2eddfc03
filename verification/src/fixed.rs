//! Fixed-point arithmetic on micro-unit scalars.
//!
//! Every scalar quantity of this crate (meters, ratios, densities, cubic
//! meters, tonnes) is an `i64` count of millionths of a unit.  The helpers
//! here give the truncating division, rescaling multiplication, rounding and
//! clamping that the calculation model is built from.

use vstd::prelude::*;

verus! {

/// One whole unit in micro-units.
pub const MICRO: i64 = 1_000_000;

/// The largest magnitude a scalar read from the outside may take:
/// one million units.  Parsed values are saturated into this band.
pub const FIXED_SAT: i64 = 1_000_000_000_000;

/// Truncating (round-toward-zero) division, the division the fixed-point
/// model is defined with.  Requires a positive divisor.
pub open spec fn spec_tdiv(a: int, b: int) -> int {
    if a >= 0 {
        a / b
    } else {
        -((-a) / b)
    }
}

/// Clamp a value into `[lo, hi]`.
pub open spec fn spec_clamp(v: int, lo: int, hi: int) -> int {
    if v < lo {
        lo
    } else if v > hi {
        hi
    } else {
        v
    }
}

/// Product of two micro-unit values, rescaled back to micro-units.
pub open spec fn spec_fixmul(a: int, b: int) -> int {
    spec_tdiv(a * b, MICRO as int)
}

/// Round a micro-unit value to a multiple of `grain`, half away from zero.
pub open spec fn spec_round_to(v: int, grain: int) -> int {
    if v >= 0 {
        ((v + grain / 2) / grain) * grain
    } else {
        -(((-v + grain / 2) / grain) * grain)
    }
}

/// Magnitude bound for a truncating quotient: if `|x| <= m` then
/// `|x / d| <= m / d`.
pub proof fn lemma_tdiv_bound(x: int, m: int, d: int)
    requires
        d > 0,
        0 <= m,
        -m <= x <= m,
    ensures
        -(m / d) <= spec_tdiv(x, d) <= m / d,
{
    if x >= 0 {
        vstd::arithmetic::div_mod::lemma_div_is_ordered(x, m, d);
        vstd::arithmetic::div_mod::lemma_div_pos_is_pos(x, d);
        vstd::arithmetic::div_mod::lemma_div_pos_is_pos(m, d);
    } else {
        vstd::arithmetic::div_mod::lemma_div_is_ordered(-x, m, d);
        vstd::arithmetic::div_mod::lemma_div_pos_is_pos(-x, d);
        vstd::arithmetic::div_mod::lemma_div_pos_is_pos(m, d);
    }
}

/// Rounding moves a value by less than one grain.
pub proof fn lemma_round_bound(v: int, g: int, m: int)
    requires
        0 < g,
        0 <= m,
        -m <= v <= m,
    ensures
        -(m + g) <= spec_round_to(v, g) <= m + g,
{
    if v >= 0 {
        let q = (v + g / 2) / g;
        vstd::arithmetic::div_mod::lemma_fundamental_div_mod(v + g / 2, g);
        vstd::arithmetic::div_mod::lemma_mod_bound(v + g / 2, g);
        assert(g * q == (v + g / 2) - (v + g / 2) % g);
        assert(q * g == (v + g / 2) - (v + g / 2) % g);
        vstd::arithmetic::div_mod::lemma_div_pos_is_pos(v + g / 2, g);
        assert(q >= 0);
        assert(q * g >= 0) by (nonlinear_arith)
            requires
                q >= 0 && g > 0,
        ;
    } else {
        let q = (-v + g / 2) / g;
        vstd::arithmetic::div_mod::lemma_fundamental_div_mod(-v + g / 2, g);
        vstd::arithmetic::div_mod::lemma_mod_bound(-v + g / 2, g);
        assert(g * q == (-v + g / 2) - (-v + g / 2) % g);
        assert(q * g == (-v + g / 2) - (-v + g / 2) % g);
        vstd::arithmetic::div_mod::lemma_div_pos_is_pos(-v + g / 2, g);
        assert(q >= 0);
        assert(q * g >= 0) by (nonlinear_arith)
            requires
                q >= 0 && g > 0,
        ;
    }
}

/// Truncating division is monotone.
pub proof fn lemma_tdiv_monotone(a: int, b: int, d: int)
    requires
        a <= b,
        d > 0,
    ensures
        spec_tdiv(a, d) <= spec_tdiv(b, d),
{
    if a >= 0 {
        vstd::arithmetic::div_mod::lemma_div_is_ordered(a, b, d);
    } else if b >= 0 {
        vstd::arithmetic::div_mod::lemma_div_pos_is_pos(-a, d);
        vstd::arithmetic::div_mod::lemma_div_pos_is_pos(b, d);
    } else {
        vstd::arithmetic::div_mod::lemma_div_is_ordered(-b, -a, d);
    }
}

/// A fixed-point product is monotone in a factor when the other is
/// nonnegative.
pub proof fn lemma_fixmul_monotone(a1: int, a2: int, b: int)
    requires
        a1 <= a2,
        b >= 0,
    ensures
        spec_fixmul(a1, b) <= spec_fixmul(a2, b),
        spec_fixmul(b, a1) <= spec_fixmul(b, a2),
{
    assert(a1 * b <= a2 * b) by (nonlinear_arith)
        requires
            a1 <= a2 && b >= 0,
    ;
    lemma_tdiv_monotone(a1 * b, a2 * b, MICRO as int);
    assert(b * a1 == a1 * b) by (nonlinear_arith);
    assert(b * a2 == a2 * b) by (nonlinear_arith);
}

/// A fixed-point product of nonnegative factors is nonnegative and
/// monotone in both factors.
pub proof fn lemma_fixmul_monotone_both(a1: int, a2: int, b1: int, b2: int)
    requires
        0 <= a1 <= a2,
        0 <= b1 <= b2,
    ensures
        0 <= spec_fixmul(a1, b1) <= spec_fixmul(a2, b2),
{
    assert(0 <= a1 * b1) by (nonlinear_arith)
        requires
            a1 >= 0 && b1 >= 0,
    ;
    assert(a1 * b1 <= a2 * b2) by (nonlinear_arith)
        requires
            0 <= a1 <= a2 && 0 <= b1 <= b2,
    ;
    lemma_tdiv_monotone(a1 * b1, a2 * b2, MICRO as int);
    vstd::arithmetic::div_mod::lemma_div_pos_is_pos(a1 * b1, MICRO as int);
}

/// Clamping is monotone.
pub proof fn lemma_clamp_monotone(v1: int, v2: int, lo: int, hi: int)
    requires
        v1 <= v2,
        lo <= hi,
    ensures
        spec_clamp(v1, lo, hi) <= spec_clamp(v2, lo, hi),
{
}

/// Rounding is monotone.
pub proof fn lemma_round_monotone(v1: int, v2: int, g: int)
    requires
        v1 <= v2,
        0 < g,
    ensures
        spec_round_to(v1, g) <= spec_round_to(v2, g),
{
    if v1 >= 0 {
        vstd::arithmetic::div_mod::lemma_div_is_ordered(v1 + g / 2, v2 + g / 2, g);
        let q1 = (v1 + g / 2) / g;
        let q2 = (v2 + g / 2) / g;
        assert(q1 * g <= q2 * g) by (nonlinear_arith)
            requires
                q1 <= q2 && g > 0,
        ;
    } else if v2 >= 0 {
        lemma_round_bound(v1, g, -v1);
        let q1 = (-v1 + g / 2) / g;
        let q2 = (v2 + g / 2) / g;
        vstd::arithmetic::div_mod::lemma_div_pos_is_pos(-v1 + g / 2, g);
        vstd::arithmetic::div_mod::lemma_div_pos_is_pos(v2 + g / 2, g);
        assert(q1 * g >= 0) by (nonlinear_arith)
            requires
                q1 >= 0 && g > 0,
        ;
        assert(q2 * g >= 0) by (nonlinear_arith)
            requires
                q2 >= 0 && g > 0,
        ;
    } else {
        vstd::arithmetic::div_mod::lemma_div_is_ordered(-v2 + g / 2, -v1 + g / 2, g);
        let q1 = (-v1 + g / 2) / g;
        let q2 = (-v2 + g / 2) / g;
        assert(q2 * g <= q1 * g) by (nonlinear_arith)
            requires
                q2 <= q1 && g > 0,
        ;
    }
}

/// Rounding moves a value by at most half a grain.
pub proof fn lemma_round_close(v: int, g: int)
    requires
        0 < g,
        g % 2 == 0,
    ensures
        v - g / 2 <= spec_round_to(v, g) <= v + g / 2,
{
    if v >= 0 {
        let q = (v + g / 2) / g;
        vstd::arithmetic::div_mod::lemma_fundamental_div_mod(v + g / 2, g);
        vstd::arithmetic::div_mod::lemma_mod_bound(v + g / 2, g);
        assert(g * q == (v + g / 2) - (v + g / 2) % g);
        assert(q * g == (v + g / 2) - (v + g / 2) % g);
    } else {
        let q = (-v + g / 2) / g;
        vstd::arithmetic::div_mod::lemma_fundamental_div_mod(-v + g / 2, g);
        vstd::arithmetic::div_mod::lemma_mod_bound(-v + g / 2, g);
        assert(g * q == (-v + g / 2) - (-v + g / 2) % g);
        assert(q * g == (-v + g / 2) - (-v + g / 2) % g);
    }
}

/// Truncating division on `i128`, matching `spec_tdiv`.
pub fn tdiv_i128(a: i128, b: i128) -> (r: i128)
    requires
        b > 0,
        -0x4000_0000_0000_0000_0000_0000_0000_0000 < a,
    ensures
        r == spec_tdiv(a as int, b as int),
        a >= 0 ==> 0 <= r <= a,
        a < 0 ==> a <= r <= 0,
{
    if a >= 0 {
        a / b
    } else {
        let n = -a;
        -(n / b)
    }
}

/// Clamp into `[lo, hi]`.
pub fn clamp_i64(v: i64, lo: i64, hi: i64) -> (r: i64)
    requires
        lo <= hi,
    ensures
        r == spec_clamp(v as int, lo as int, hi as int),
{
    if v < lo {
        lo
    } else if v > hi {
        hi
    } else {
        v
    }
}

/// Clamp an `i128` into an `[lo, hi]` band that fits `i64`.
pub fn clamp_i128_to_i64(v: i128, lo: i64, hi: i64) -> (r: i64)
    requires
        lo <= hi,
    ensures
        r == spec_clamp(v as int, lo as int, hi as int),
{
    if v < lo as i128 {
        lo
    } else if v > hi as i128 {
        hi
    } else {
        v as i64
    }
}

/// Round a micro-unit value to a multiple of `grain`, half away from zero.
pub fn round_to(v: i64, grain: i64) -> (r: i64)
    requires
        0 < grain <= MICRO,
        -0x7000_0000_0000_0000 < v < 0x7000_0000_0000_0000,
    ensures
        r == spec_round_to(v as int, grain as int),
{
    if v >= 0 {
        let shifted = v + grain / 2;
        let q = shifted / grain;
        proof {
            vstd::arithmetic::div_mod::lemma_fundamental_div_mod(shifted as int, grain as int);
            vstd::arithmetic::div_mod::lemma_mod_bound(shifted as int, grain as int);
            assert(grain * q == shifted - shifted % grain);
            assert(q * grain == shifted - shifted % grain);
        }
        q * grain
    } else {
        let n = -v;
        let shifted = n + grain / 2;
        let q = shifted / grain;
        proof {
            vstd::arithmetic::div_mod::lemma_fundamental_div_mod(shifted as int, grain as int);
            vstd::arithmetic::div_mod::lemma_mod_bound(shifted as int, grain as int);
            assert(grain * q == shifted - shifted % grain);
            assert(q * grain == shifted - shifted % grain);
        }
        -(q * grain)
    }
}

} // verus!
