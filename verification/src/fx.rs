//! Fixed-point scalars.
//!
//! A scalar is an `i64` holding `SCALE` steps per world unit.  Products are
//! scaled back down with a truncating (round-toward-zero) division, so every
//! operation is exact integer arithmetic with a closed-form meaning.

use vstd::prelude::*;

verus! {

use vstd::arithmetic::div_mod::lemma_div_is_ordered;

/// Number of fixed-point steps in one world unit.
pub const SCALE: i64 = 1000;

/// Truncating (round-toward-zero) quotient of `p` by a positive `d`.
pub open spec fn tdiv(p: int, d: int) -> int {
    if p >= 0 {
        p / d
    } else {
        -((-p) / d)
    }
}

/// Product of two fixed-point scalars, scaled back to fixed point.
pub open spec fn spec_fmul(a: int, b: int) -> int {
    tdiv(a * b, SCALE as int)
}

/// Fixed-point quotient of `a` by `b`.
pub open spec fn spec_fdiv(a: int, b: int) -> int {
    tdiv(a * (SCALE as int), b)
}

pub open spec fn spec_abs(a: int) -> int {
    if a >= 0 {
        a
    } else {
        -a
    }
}

pub open spec fn spec_min(a: int, b: int) -> int {
    if a <= b {
        a
    } else {
        b
    }
}

pub open spec fn spec_max(a: int, b: int) -> int {
    if a >= b {
        a
    } else {
        b
    }
}

/// `r` is the integer square root of `n`.
pub open spec fn is_isqrt(n: int, r: int) -> bool {
    r >= 0 && r * r <= n && (r + 1) * (r + 1) > n
}

/// The integer square root of a nonnegative `n`.
pub open spec fn spec_isqrt(n: int) -> int {
    choose|r: int| is_isqrt(n, r)
}

/// The integer square root is unique: any witness is the chosen one.
pub proof fn lemma_isqrt_unique(n: int, r: int)
    requires
        is_isqrt(n, r),
    ensures
        spec_isqrt(n) == r,
{
    assert(exists|x: int| is_isqrt(n, x));
    let c = spec_isqrt(n);
    assert(is_isqrt(n, c));
    assert(c == r) by (nonlinear_arith)
        requires
            is_isqrt(n, c),
            is_isqrt(n, r),
    ;
}

/// Magnitude bound for a product of bounded factors.
pub proof fn lemma_mul_bound(a: int, b: int, ba: int, bb: int)
    by (nonlinear_arith)
    requires
        -ba <= a <= ba,
        -bb <= b <= bb,
        0 <= ba,
        0 <= bb,
    ensures
        -(ba * bb) <= a * b <= ba * bb,
{
}

/// Magnitude bound for a truncating quotient of a bounded dividend.
pub proof fn lemma_tdiv_bound(p: int, d: int, bp: int)
    requires
        d > 0,
        -bp <= p <= bp,
    ensures
        -(bp / d) <= tdiv(p, d) <= bp / d,
        -bp <= tdiv(p, d) <= bp,
{
    if p >= 0 {
        lemma_div_is_ordered(p, bp, d);
        lemma_div_is_ordered(0, p, d);
        assert(bp / d <= bp) by (nonlinear_arith)
            requires
                d > 0,
                bp >= 0,
        ;
    } else {
        lemma_div_is_ordered(-p, bp, d);
        lemma_div_is_ordered(0, -p, d);
        assert(bp / d <= bp) by (nonlinear_arith)
            requires
                d > 0,
                bp >= 0,
        ;
    }
}

/// Magnitude bound for a fixed-point product of bounded factors.
pub proof fn lemma_fmul_bound(a: int, b: int, ba: int, bb: int)
    requires
        -ba <= a <= ba,
        -bb <= b <= bb,
        0 <= ba,
        0 <= bb,
    ensures
        -((ba * bb) / (SCALE as int)) <= spec_fmul(a, b) <= (ba * bb) / (SCALE as int),
        -(ba * bb) <= spec_fmul(a, b) <= ba * bb,
{
    lemma_mul_bound(a, b, ba, bb);
    lemma_tdiv_bound(a * b, SCALE as int, ba * bb);
}

/// Scaling a scalar by a whole fixed-point unit leaves it unchanged, on
/// either side and with either sign.
pub proof fn lemma_fmul_unit(k: int)
    ensures
        spec_fmul(SCALE as int, k) == k,
        spec_fmul(-(SCALE as int), k) == -k,
        spec_fmul(k, SCALE as int) == k,
        spec_fmul(k, -(SCALE as int)) == -k,
{
    let s = SCALE as int;
    assert(s * k == k * s) by (nonlinear_arith);
    assert((-s) * k == -(k * s)) by (nonlinear_arith);
    assert(k * (-s) == -(k * s)) by (nonlinear_arith);
    if k >= 0 {
        assert((k * s) / s == k) by (nonlinear_arith)
            requires
                s > 0,
                k >= 0,
        ;
    } else {
        assert((-(k * s)) / s == -k) by (nonlinear_arith)
            requires
                s > 0,
                k < 0,
        ;
    }
}

/// A truncating quotient of a nonnegative dividend, scaled back up by a
/// factor no larger than the divisor, stays below the dividend.
pub proof fn lemma_div_scale_bound(p: int, m: int, im: int)
    requires
        p >= 0,
        m >= 1,
        0 <= im <= m,
    ensures
        0 <= tdiv(p, m) * im <= p,
{
    let q = p / m;
    lemma_div_is_ordered(0, p, m);
    vstd::arithmetic::div_mod::lemma_fundamental_div_mod(p, m);
    vstd::arithmetic::div_mod::lemma_remainder_lower(p, m);
    assert(m * q <= p);
    assert(q * im >= 0) by (nonlinear_arith)
        requires
            q >= 0,
            im >= 0,
    ;
    assert(q * im <= q * m) by (nonlinear_arith)
        requires
            q >= 0,
            im <= m,
    ;
    assert(q * m == m * q) by (nonlinear_arith);
}

/// Truncating division of `p` by a positive `d`, computed on magnitudes so
/// that the quotient rounds toward zero.
pub fn div_trunc(p: i64, d: i64) -> (r: i64)
    requires
        p > i64::MIN,
        d > 0,
    ensures
        r == tdiv(p as int, d as int),
{
    if p >= 0 {
        let q: u64 = (p as u64) / (d as u64);
        proof {
            lemma_div_is_ordered(p as int, i64::MAX as int, d as int);
            lemma_div_is_ordered(0, p as int, d as int);
            assert((i64::MAX as int) / (d as int) <= i64::MAX as int) by (nonlinear_arith)
                requires
                    d > 0,
            ;
        }
        q as i64
    } else {
        let m: u64 = (-p) as u64;
        let q: u64 = m / (d as u64);
        proof {
            lemma_div_is_ordered(m as int, i64::MAX as int, d as int);
            lemma_div_is_ordered(0, m as int, d as int);
            assert((i64::MAX as int) / (d as int) <= i64::MAX as int) by (nonlinear_arith)
                requires
                    d > 0,
            ;
        }
        -(q as i64)
    }
}

/// Fixed-point product, rounded toward zero.
pub fn fmul(a: i64, b: i64) -> (r: i64)
    requires
        -i64::MAX <= a * b <= i64::MAX,
    ensures
        r == spec_fmul(a as int, b as int),
{
    let p: i64 = a * b;
    div_trunc(p, SCALE)
}

/// Fixed-point quotient by a positive divisor, rounded toward zero.
pub fn fdiv(a: i64, b: i64) -> (r: i64)
    requires
        b > 0,
        -i64::MAX <= a * (SCALE as int) <= i64::MAX,
    ensures
        r == spec_fdiv(a as int, b as int),
{
    let p: i64 = a * SCALE;
    div_trunc(p, b)
}

/// Absolute value.
pub fn iabs(a: i64) -> (r: i64)
    requires
        a > i64::MIN,
    ensures
        r == spec_abs(a as int),
{
    if a >= 0 {
        a
    } else {
        -a
    }
}

/// Smaller of two scalars.
pub fn imin(a: i64, b: i64) -> (r: i64)
    ensures
        r == spec_min(a as int, b as int),
{
    if a <= b {
        a
    } else {
        b
    }
}

/// Larger of two scalars.
pub fn imax(a: i64, b: i64) -> (r: i64)
    ensures
        r == spec_max(a as int, b as int),
{
    if a >= b {
        a
    } else {
        b
    }
}

/// Integer square root by bisection.
pub fn isqrt(n: u64) -> (r: u64)
    ensures
        is_isqrt(n as int, r as int),
        r == spec_isqrt(n as int),
{
    let mut lo: u64 = 0;
    let mut hi: u64 = 4_294_967_296;
    proof {
        assert((hi as int) * (hi as int) > n as int) by (nonlinear_arith)
            requires
                hi == 4_294_967_296u64,
                n <= u64::MAX,
        ;
    }
    while hi - lo > 1
        invariant
            0 <= lo < hi <= 4_294_967_296,
            (lo as int) * (lo as int) <= n as int,
            (hi as int) * (hi as int) > n as int,
        decreases hi - lo,
    {
        let mid: u64 = lo + (hi - lo) / 2;
        proof {
            assert((mid as int) * (mid as int) <= 4_294_967_295 * 4_294_967_295)
                by (nonlinear_arith)
                requires
                    0 <= mid < 4_294_967_296,
            ;
        }
        let sq: u64 = mid * mid;
        if sq <= n {
            lo = mid;
        } else {
            hi = mid;
        }
    }
    proof {
        assert(is_isqrt(n as int, lo as int));
        lemma_isqrt_unique(n as int, lo as int);
    }
    lo
}

} // verus!
