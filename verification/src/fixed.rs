//! Fixed-point scalar arithmetic.
//!
//! A scalar carries six decimal places: the `i64` value `x` stands for the
//! real number `x / SCALE`.  All operations saturate at the `i64` bounds, so
//! every operation is total and no call can overflow or panic.  Quotients are
//! rounded toward zero, as the corresponding machine division would round.

use vstd::prelude::*;
use vstd::arithmetic::div_mod::{
    lemma_div_is_ordered,
    lemma_div_multiples_vanish,
    lemma_div_nonincreasing,
    lemma_div_pos_is_pos,
    lemma_fundamental_div_mod,
    lemma_fundamental_div_mod_converse_mod,
};

verus! {

/// One in fixed-point form; also the scaling factor between a fixed-point
/// value and the integer it stores.
pub const SCALE: i64 = 1_000_000;

/// The circle constant pi, rounded to six decimal places.
pub const PI_FX: i64 = 3_141_593;

/// A full turn: twice `PI_FX`.
pub const TAU_FX: i64 = 6_283_186;

/// Clamp an unbounded integer into the `i64` range.
pub open spec fn sat64(x: int) -> int {
    if x > i64::MAX as int {
        i64::MAX as int
    } else if x < i64::MIN as int {
        i64::MIN as int
    } else {
        x
    }
}

/// Absolute value.
pub open spec fn iabs(x: int) -> int {
    if x < 0 {
        -x
    } else {
        x
    }
}

/// Quotient of `n` by `d`, rounded toward zero.  Meaningful only for `d != 0`.
pub open spec fn tdiv(n: int, d: int) -> int {
    if (n < 0) != (d < 0) {
        -(iabs(n) / iabs(d))
    } else {
        iabs(n) / iabs(d)
    }
}

/// Fixed-point sum, saturating.
pub open spec fn fadd(a: int, b: int) -> int {
    sat64(a + b)
}

/// Fixed-point difference, saturating.
pub open spec fn fsub(a: int, b: int) -> int {
    sat64(a - b)
}

/// Fixed-point product: `a * b` rescaled back by `SCALE`, saturating.
pub open spec fn fmul(a: int, b: int) -> int {
    sat64(tdiv(a * b, SCALE as int))
}

/// Fixed-point quotient: `a / b` scaled up by `SCALE`, saturating.
/// Meaningful only for `b != 0`.
pub open spec fn fdiv(a: int, b: int) -> int {
    sat64(tdiv(a * SCALE, b))
}

pub(crate) fn clamp_to_i64(x: i128) -> (r: i64)
    ensures
        r as int == sat64(x as int),
{
    if x > i64::MAX as i128 {
        i64::MAX
    } else if x < i64::MIN as i128 {
        i64::MIN
    } else {
        x as i64
    }
}

pub(crate) fn div_i128(n: i128, d: i128) -> (q: i128)
    requires
        d != 0,
        n != i128::MIN,
        d != i128::MIN,
    ensures
        q as int == tdiv(n as int, d as int),
{
    let nn: u128 = if n >= 0 { n as u128 } else { (-n) as u128 };
    let dd: u128 = if d >= 0 { d as u128 } else { (-d) as u128 };
    let qq: u128 = nn / dd;
    proof {
        assert(nn as int == iabs(n as int));
        assert(dd as int == iabs(d as int));
        lemma_div_nonincreasing(nn as int, dd as int);
        assert(qq as int <= nn as int);
    }
    if (n < 0) == (d < 0) {
        qq as i128
    } else {
        -(qq as i128)
    }
}

/// Saturating fixed-point addition.
pub fn fx_add(a: i64, b: i64) -> (r: i64)
    ensures
        r as int == fadd(a as int, b as int),
{
    clamp_to_i64(a as i128 + b as i128)
}

/// Saturating fixed-point subtraction.
pub fn fx_sub(a: i64, b: i64) -> (r: i64)
    ensures
        r as int == fsub(a as int, b as int),
{
    clamp_to_i64(a as i128 - b as i128)
}

/// Saturating fixed-point multiplication.
pub fn fx_mul(a: i64, b: i64) -> (r: i64)
    ensures
        r as int == fmul(a as int, b as int),
{
    proof {
        assert(-0x40000000000000000000000000000000 <= (a as int) * (b as int)
            <= 0x40000000000000000000000000000000) by (nonlinear_arith)
            requires
                -0x8000000000000000 <= a as int <= 0x7FFFFFFFFFFFFFFF,
                -0x8000000000000000 <= b as int <= 0x7FFFFFFFFFFFFFFF,
        ;
    }
    let p: i128 = (a as i128) * (b as i128);
    let q: i128 = div_i128(p, SCALE as i128);
    clamp_to_i64(q)
}

/// Saturating fixed-point division; the divisor must be nonzero.
pub fn fx_div(a: i64, b: i64) -> (r: i64)
    requires
        b != 0,
    ensures
        r as int == fdiv(a as int, b as int),
{
    proof {
        assert(-0x40000000000000000000000000000000 <= (a as int) * (SCALE as int)
            <= 0x40000000000000000000000000000000) by (nonlinear_arith)
            requires
                -0x8000000000000000 <= a as int <= 0x7FFFFFFFFFFFFFFF,
                SCALE as int == 1000000,
        ;
    }
    let p: i128 = (a as i128) * (SCALE as i128);
    let q: i128 = div_i128(p, b as i128);
    clamp_to_i64(q)
}

/// Zero-clamp: the larger of the argument and zero.
pub open spec fn fmax0(x: int) -> int {
    if x < 0 {
        0
    } else {
        x
    }
}

/// Zero-clamp: the larger of the argument and zero.
pub fn fx_max0(a: i64) -> (r: i64)
    ensures
        r as int == fmax0(a as int),
{
    if a < 0 {
        0
    } else {
        a
    }
}

pub(crate) fn emod_i64(x: i64, m: u64) -> (r: u64)
    requires
        0 < m <= 0x7FFFFFFFFFFFFFFF,
    ensures
        r as int == (x as int) % (m as int),
        r < m,
{
    if x >= 0 {
        (x as u64) % m
    } else {
        let a: u128 = (-(x as i128)) as u128;
        let rem: u128 = a % (m as u128);
        proof {
            lemma_fundamental_div_mod(a as int, m as int);
            let q: int = (a as int) / (m as int);
            assert(a as int == (m as int) * q + rem as int);
            assert(x as int == -(a as int));
            if rem == 0 {
                assert(x as int == (-q) * (m as int) + 0) by (nonlinear_arith)
                    requires
                        (a as int) == (m as int) * q + 0,
                        x as int == -(a as int),
                ;
                lemma_fundamental_div_mod_converse_mod(x as int, m as int, -q, 0);
            } else {
                assert(x as int == (-q - 1) * (m as int) + (m as int - rem as int))
                    by (nonlinear_arith)
                    requires
                        (a as int) == (m as int) * q + rem as int,
                        x as int == -(a as int),
                ;
                lemma_fundamental_div_mod_converse_mod(
                    x as int,
                    m as int,
                    -q - 1,
                    m as int - rem as int,
                );
            }
        }
        if rem == 0 {
            0
        } else {
            m - (rem as u64)
        }
    }
}

/// The Bhaskara rational approximation of the sine on a half turn:
/// `16 r (pi - r) / (5 pi^2 - 4 r (pi - r))`, in fixed point.
/// Meaningful for `0 <= r <= PI_FX`.
pub open spec fn spec_half_sin(r: int) -> int {
    tdiv(
        16 * r * (PI_FX - r) * (SCALE as int),
        5 * (PI_FX as int) * (PI_FX as int) - 4 * r * (PI_FX - r),
    )
}

/// Fixed-point sine of any angle: the argument is reduced to one turn, and
/// the second half turn is the negated mirror of the first.
pub open spec fn spec_sin(x: int) -> int {
    let m = x % (TAU_FX as int);
    if m < PI_FX {
        spec_half_sin(m)
    } else {
        -spec_half_sin(m - PI_FX)
    }
}

fn half_sin(r: i64) -> (s: i64)
    requires
        0 <= r <= PI_FX,
    ensures
        s as int == spec_half_sin(r as int),
        0 <= s <= SCALE,
{
    let a: i128 = r as i128;
    let b: i128 = (PI_FX - r) as i128;
    proof {
        assert(0 <= (a as int) * (b as int)
            && 4 * ((a as int) * (b as int)) <= (PI_FX as int) * (PI_FX as int))
            by (nonlinear_arith)
            requires
                (a as int) + (b as int) == PI_FX as int,
                0 <= a as int,
                0 <= b as int,
        ;
    }
    let ab: i128 = a * b;
    let num: i128 = 16 * ab * (SCALE as i128);
    let den: i128 = 5 * (PI_FX as i128) * (PI_FX as i128) - 4 * ab;
    proof {
        assert(num as int <= (SCALE as int) * (den as int)) by (nonlinear_arith)
            requires
                num as int == 16 * (ab as int) * (SCALE as int),
                den as int == 5 * (PI_FX as int) * (PI_FX as int) - 4 * (ab as int),
                4 * (ab as int) <= (PI_FX as int) * (PI_FX as int),
                SCALE as int == 1000000,
                PI_FX as int == 3141593,
        ;
    }
    let q: i128 = div_i128(num, den);
    proof {
        lemma_div_pos_is_pos(num as int, den as int);
        lemma_div_multiples_vanish(SCALE as int, den as int);
        lemma_div_is_ordered(num as int, (SCALE as int) * (den as int), den as int);
        assert(q as int == (num as int) / (den as int));
        assert(q as int == spec_half_sin(r as int)) by {
            assert(num as int == 16 * (r as int) * (PI_FX - r as int) * (SCALE as int))
                by (nonlinear_arith)
                requires
                    num as int == 16 * (ab as int) * (SCALE as int),
                    ab as int == (r as int) * (PI_FX - r as int),
            ;
            assert(den as int == 5 * (PI_FX as int) * (PI_FX as int) - 4 * (r as int) * (
            PI_FX - r as int)) by (nonlinear_arith)
                requires
                    den as int == 5 * (PI_FX as int) * (PI_FX as int) - 4 * (ab as int),
                    ab as int == (r as int) * (PI_FX - r as int),
            ;
            assert(iabs(num as int) == num as int);
            assert(iabs(den as int) == den as int);
        };
    }
    q as i64
}

/// Fixed-point sine.  The result lies in `[-SCALE, SCALE]`.
pub fn fx_sin(x: i64) -> (r: i64)
    ensures
        r as int == spec_sin(x as int),
        -SCALE <= r <= SCALE,
{
    let m: i64 = emod_i64(x, TAU_FX as u64) as i64;
    if m < PI_FX {
        half_sin(m)
    } else {
        let v: i64 = half_sin(m - PI_FX);
        -v
    }
}

/// `r` is the integer square root of `n`: the largest integer whose square
/// does not exceed `n`.
pub open spec fn is_isqrt(n: int, r: int) -> bool {
    0 <= r && r * r <= n && n < (r + 1) * (r + 1)
}

/// The integer square root, as a value.  It is pinned down by
/// `lemma_isqrt_unique`; the executable square roots return exactly it.
pub open spec fn isqrt(n: int) -> int {
    choose|r: int| is_isqrt(n, r)
}

/// Two integer square roots of the same number are equal.
pub proof fn lemma_isqrt_unique(n: int, r1: int, r2: int)
    requires
        is_isqrt(n, r1),
        is_isqrt(n, r2),
    ensures
        r1 == r2,
{
    if r1 < r2 {
        assert((r1 + 1) * (r1 + 1) <= r2 * r2) by (nonlinear_arith)
            requires
                0 <= r1,
                r1 < r2,
        ;
    }
    if r2 < r1 {
        assert((r2 + 1) * (r2 + 1) <= r1 * r1) by (nonlinear_arith)
            requires
                0 <= r2,
                r2 < r1,
        ;
    }
}

pub(crate) fn isqrt_u128(n: u128) -> (r: u128)
    ensures
        is_isqrt(n as int, r as int),
        r as int == isqrt(n as int),
{
    let mut lo: u128 = 0;
    let mut hi: u128 = 0x10000000000000000;
    proof {
        assert((hi as int) * (hi as int) > n as int) by (nonlinear_arith)
            requires
                hi as int == 0x10000000000000000,
                (n as int) < 0x100000000000000000000000000000000,
        ;
    }
    while hi - lo > 1
        invariant
            lo < hi,
            hi <= 0x10000000000000000,
            (lo as int) * (lo as int) <= n as int,
            (n as int) < (hi as int) * (hi as int),
        decreases hi - lo,
    {
        let mid: u128 = lo + (hi - lo) / 2;
        proof {
            assert((mid as int) * (mid as int) < 0x100000000000000000000000000000000)
                by (nonlinear_arith)
                requires
                    0 <= mid as int,
                    (mid as int) < 0x10000000000000000,
            ;
        }
        let sq: u128 = mid * mid;
        if sq <= n {
            lo = mid;
        } else {
            hi = mid;
        }
    }
    proof {
        assert(is_isqrt(n as int, lo as int));
        let w: int = choose|r: int| is_isqrt(n as int, r);
        lemma_isqrt_unique(n as int, w, lo as int);
    }
    lo
}

/// The square root of a fixed-point value, as a fixed-point value:
/// the integer square root of the value rescaled by `SCALE`.
/// Meaningful for `x >= 0`.
pub open spec fn fsqrt(x: int) -> int {
    isqrt(x * SCALE)
}

/// Fixed-point square root of a nonnegative value.
pub fn fx_sqrt(x: i64) -> (r: i64)
    requires
        0 <= x,
    ensures
        r as int == fsqrt(x as int),
        0 <= r,
{
    proof {
        assert((x as int) * (SCALE as int) < 0x2000000000000000000000000) by (nonlinear_arith)
            requires
                0 <= x as int <= 0x7FFFFFFFFFFFFFFF,
                SCALE as int == 1000000,
        ;
    }
    let n: u128 = (x as u128) * (SCALE as u128);
    let r: u128 = isqrt_u128(n);
    proof {
        if (r as int) >= 0x10000000000000int {
            assert((r as int) * (r as int) >= 0x2000000000000000000000000int)
                by (nonlinear_arith)
                requires
                    (r as int) >= 0x10000000000000int,
            ;
        }
        assert((r as int) < 0x10000000000000int);
    }
    r as i64
}

/// Multiplying one by `x` gives back `x`, exactly.
pub proof fn lemma_fmul_one(x: int)
    requires
        i64::MIN <= x <= i64::MAX,
    ensures
        fmul(SCALE as int, x) == x,
        fmul(x, SCALE as int) == x,
{
    lemma_tdiv_scale_exact(x);
    assert((SCALE as int) * x == x * (SCALE as int));
}

proof fn lemma_tdiv_scale_exact(x: int)
    ensures
        tdiv(x * SCALE, SCALE as int) == x,
{
    if x >= 0 {
        lemma_div_multiples_vanish(x, SCALE as int);
        assert(iabs(x * SCALE) == x * SCALE);
    } else {
        lemma_div_multiples_vanish(-x, SCALE as int);
        assert(iabs(x * SCALE) == (-x) * SCALE);
    }
}

/// Multiplying zero by anything gives zero, exactly.
pub proof fn lemma_fmul_zero(x: int)
    ensures
        fmul(0, x) == 0,
        fmul(x, 0) == 0,
{
    assert(iabs(0 * x) / iabs(SCALE as int) == 0);
    assert(iabs(x * 0) / iabs(SCALE as int) == 0);
}

/// Dividing by one gives back the dividend, exactly.
pub proof fn lemma_fdiv_one(x: int)
    requires
        i64::MIN <= x <= i64::MAX,
    ensures
        fdiv(x, SCALE as int) == x,
{
    lemma_tdiv_scale_exact(x);
}

/// Dividing a positive value by itself gives exactly one.
pub proof fn lemma_fdiv_self(x: int)
    requires
        0 < x,
    ensures
        fdiv(x, x) == SCALE,
{
    lemma_div_multiples_vanish(SCALE as int, x);
    assert((SCALE as int) * x == x * SCALE);
    assert(iabs(x * SCALE) == x * SCALE);
}

/// Dividing zero by anything nonzero gives zero, exactly.
pub proof fn lemma_fdiv_zero(d: int)
    requires
        d != 0,
    ensures
        fdiv(0, d) == 0,
{
    assert(iabs(0 * SCALE) / iabs(d) == 0);
}

} // verus!
