//! Fixed-point angles: arctangent and arcsine approximations, Euler-angle
//! extraction, and the shortest-arc rotation between two directions.
//!
//! Angles are fixed-point radians (`SCALE` steps per radian).  The
//! arctangent uses the quadratic approximation
//! `atan(z) ~= z * (pi/4 + C * (1 - |z|))` for `|z| <= 1`, reduced to that
//! range by octant; every function's result is pinned exactly by its spec
//! mirror, so callers reason about one closed-form value.

use vstd::prelude::*;

verus! {

use crate::fx::{
    SCALE, tdiv, spec_fmul, spec_abs, spec_isqrt, is_isqrt, fmul, iabs, imin, imax, isqrt,
    div_trunc, lemma_fmul_bound, lemma_isqrt_unique,
};
use crate::vec3::{
    Vec3, vec_in, norm_sq, spec_dot, spec_cross, spec_normalized, lemma_vec_pair_fits,
    lemma_cross_bound, lemma_comp_le_len, lemma_scaled_div_unit,
};
use crate::quat::{Quat, quat_in};

/// Fixed-point pi.
pub const PI_FX: i64 = 3142;

/// Fixed-point pi / 2.
pub const HALF_PI_FX: i64 = 1571;

/// Fixed-point pi / 4.
pub const QUARTER_PI_FX: i64 = 785;

/// Fixed-point 0.273, the corrective coefficient of the arctangent
/// approximation.
pub const ATAN_C_FX: i64 = 273;

/// Arctangent of `n / d` for `|n| <= d`.
pub open spec fn spec_atan_ratio(n: int, d: int) -> int {
    let z = tdiv(n * (SCALE as int), d);
    spec_fmul(z, (QUARTER_PI_FX as int) + spec_fmul(ATAN_C_FX as int, (SCALE as int) - spec_abs(z)))
}

/// Four-quadrant arctangent of `y / x`, reduced by octant to
/// `spec_atan_ratio`; `0` when both arguments are zero.
pub open spec fn spec_atan2(y: int, x: int) -> int {
    if x == 0 && y == 0 {
        0
    } else {
        let ax = spec_abs(x);
        let ay = spec_abs(y);
        if x > 0 && ay <= x {
            spec_atan_ratio(y, x)
        } else if x < 0 && ay <= ax {
            (if y >= 0 {
                PI_FX as int
            } else {
                -(PI_FX as int)
            }) - spec_atan_ratio(y, ax)
        } else if y > 0 {
            (HALF_PI_FX as int) - spec_atan_ratio(x, ay)
        } else {
            -(HALF_PI_FX as int) + spec_atan_ratio(x, ay)
        }
    }
}

/// Arcsine of `s / SCALE` through the arctangent.
pub open spec fn spec_asin(s: int) -> int {
    spec_atan2(s, spec_isqrt((SCALE as int) * (SCALE as int) - s * s))
}

/// Arctangent of `n / d` for `|n| <= d`, `d >= 1`.
pub fn atan_ratio(n: i64, d: i64) -> (r: i64)
    requires
        1 <= d <= 2_000_000_000,
        -d <= n <= d,
    ensures
        r == spec_atan_ratio(n as int, d as int),
        -1058 <= r <= 1058,
{
    proof {
        crate::fx::lemma_mul_bound(n as int, SCALE as int, 2_000_000_000, SCALE as int);
        lemma_scaled_div_unit(n as int, d as int);
    }
    let z: i64 = div_trunc(n * SCALE, d);
    let a: i64 = iabs(z);
    let g: i64 = fmul(ATAN_C_FX, SCALE - a);
    proof {
        lemma_fmul_bound(ATAN_C_FX as int, (SCALE as int) - a, ATAN_C_FX as int, SCALE as int);
        lemma_fmul_bound(
            z as int,
            (QUARTER_PI_FX as int) + g,
            SCALE as int,
            (QUARTER_PI_FX as int) + (ATAN_C_FX as int),
        );
    }
    fmul(z, QUARTER_PI_FX + g)
}

/// Four-quadrant arctangent.
pub fn atan2_fx(y: i64, x: i64) -> (r: i64)
    requires
        -1_500_000_000 <= y <= 1_500_000_000,
        -1_500_000_000 <= x <= 1_500_000_000,
    ensures
        r == spec_atan2(y as int, x as int),
        -4200 <= r <= 4200,
{
    if x == 0 && y == 0 {
        return 0;
    }
    let ax: i64 = iabs(x);
    let ay: i64 = iabs(y);
    if x > 0 && ay <= x {
        atan_ratio(y, x)
    } else if x < 0 && ay <= ax {
        let base: i64 = if y >= 0 {
            PI_FX
        } else {
            -PI_FX
        };
        base - atan_ratio(y, ax)
    } else if y > 0 {
        HALF_PI_FX - atan_ratio(x, ay)
    } else {
        -HALF_PI_FX + atan_ratio(x, ay)
    }
}

/// Arcsine of `s / SCALE`, for `|s| <= SCALE`.
pub fn asin_fx(s: i64) -> (r: i64)
    requires
        -SCALE <= s <= SCALE,
    ensures
        r == spec_asin(s as int),
        -4200 <= r <= 4200,
{
    proof {
        crate::fx::lemma_mul_bound(s as int, s as int, SCALE as int, SCALE as int);
        assert(s * s >= 0) by (nonlinear_arith);
        assert((s * s) <= (SCALE as int) * (SCALE as int)) by (nonlinear_arith)
            requires
                -SCALE <= s <= SCALE,
        ;
    }
    let c2: i64 = SCALE * SCALE - s * s;
    let c: u64 = isqrt(c2 as u64);
    proof {
        assert((c as int) <= 1000) by (nonlinear_arith)
            requires
                (c as int) * (c as int) <= 1_000_000,
                c >= 0,
        ;
    }
    atan2_fx(s, c as i64)
}

/// Euler angles (rotate about X, then Y, then Z) of a rotation, one angle
/// per tuple slot, each read off the rotation matrix and clamped before the
/// arcsine.
pub open spec fn spec_euler_xyz(q: Quat) -> (int, int, int) {
    let m02 = (spec_fmul(q.x as int, q.z as int) + spec_fmul(q.w as int, q.y as int)) * 2;
    let m12 = (spec_fmul(q.y as int, q.z as int) - spec_fmul(q.w as int, q.x as int)) * 2;
    let m22 = (SCALE as int) - (spec_fmul(q.x as int, q.x as int) + spec_fmul(
        q.y as int,
        q.y as int,
    )) * 2;
    let m01 = (spec_fmul(q.x as int, q.y as int) - spec_fmul(q.w as int, q.z as int)) * 2;
    let m00 = (SCALE as int) - (spec_fmul(q.y as int, q.y as int) + spec_fmul(
        q.z as int,
        q.z as int,
    )) * 2;
    let sy = crate::fx::spec_max(crate::fx::spec_min(m02, SCALE as int), -(SCALE as int));
    (spec_atan2(-m12, m22), spec_asin(sy), spec_atan2(-m01, m00))
}

/// Euler angles (X, then Y, then Z order) of a rotation, as a vector of
/// fixed-point radians.
pub fn euler_xyz(q: Quat) -> (r: Vec3)
    requires
        quat_in(q, SCALE as int),
    ensures
        r.x == spec_euler_xyz(q).0,
        r.y == spec_euler_xyz(q).1,
        r.z == spec_euler_xyz(q).2,
        vec_in(r, 4200),
{
    proof {
        lemma_fmul_bound(q.x as int, q.z as int, SCALE as int, SCALE as int);
        lemma_fmul_bound(q.w as int, q.y as int, SCALE as int, SCALE as int);
        lemma_fmul_bound(q.y as int, q.z as int, SCALE as int, SCALE as int);
        lemma_fmul_bound(q.w as int, q.x as int, SCALE as int, SCALE as int);
        lemma_fmul_bound(q.x as int, q.x as int, SCALE as int, SCALE as int);
        lemma_fmul_bound(q.y as int, q.y as int, SCALE as int, SCALE as int);
        lemma_fmul_bound(q.x as int, q.y as int, SCALE as int, SCALE as int);
        lemma_fmul_bound(q.w as int, q.z as int, SCALE as int, SCALE as int);
        lemma_fmul_bound(q.z as int, q.z as int, SCALE as int, SCALE as int);
    }
    let m02: i64 = (fmul(q.x, q.z) + fmul(q.w, q.y)) * 2;
    let m12: i64 = (fmul(q.y, q.z) - fmul(q.w, q.x)) * 2;
    let m22: i64 = SCALE - (fmul(q.x, q.x) + fmul(q.y, q.y)) * 2;
    let m01: i64 = (fmul(q.x, q.y) - fmul(q.w, q.z)) * 2;
    let m00: i64 = SCALE - (fmul(q.y, q.y) + fmul(q.z, q.z)) * 2;
    let ex: i64 = atan2_fx(-m12, m22);
    let sy: i64 = imax(imin(m02, SCALE), -SCALE);
    let ey: i64 = asin_fx(sy);
    let ez: i64 = atan2_fx(-m01, m00);
    Vec3 { x: ex, y: ey, z: ez }
}

/// The rotation taking direction `from` to direction `to`: the normalized
/// halfway quaternion `(from x to, 1 + from . to)`, which is the
/// shortest-arc rotation between the two.  A zero cross product with
/// opposed directions falls back to a half turn about the world X axis; a
/// degenerate (zero) input yields the identity.
pub open spec fn spec_align(from: Vec3, to: Vec3) -> Quat {
    if norm_sq(from) == 0 || norm_sq(to) == 0 {
        Quat { x: 0, y: 0, z: 0, w: SCALE }
    } else {
        let f = Vec3 {
            x: spec_normalized(from).0 as i64,
            y: spec_normalized(from).1 as i64,
            z: spec_normalized(from).2 as i64,
        };
        let t = Vec3 {
            x: spec_normalized(to).0 as i64,
            y: spec_normalized(to).1 as i64,
            z: spec_normalized(to).2 as i64,
        };
        let ax = spec_cross(f, t);
        let axv = Vec3 { x: ax.0 as i64, y: ax.1 as i64, z: ax.2 as i64 };
        if norm_sq(axv) == 0 {
            if spec_dot(f, t) < 0 {
                Quat { x: SCALE, y: 0, z: 0, w: 0 }
            } else {
                Quat { x: 0, y: 0, z: 0, w: SCALE }
            }
        } else {
            let wr = (SCALE as int) + spec_dot(f, t);
            let n4 = spec_isqrt(norm_sq(axv) + wr * wr);
            Quat {
                x: tdiv(axv.x * (SCALE as int), n4) as i64,
                y: tdiv(axv.y * (SCALE as int), n4) as i64,
                z: tdiv(axv.z * (SCALE as int), n4) as i64,
                w: tdiv(wr * (SCALE as int), n4) as i64,
            }
        }
    }
}

/// The shortest-arc rotation taking `from` to `to`, with the degenerate
/// cases branched out before any normalization.
pub fn rotation_to_align(from: Vec3, to: Vec3) -> (r: Quat)
    requires
        vec_in(from, 1_500_000_000),
        vec_in(to, 1_500_000_000),
    ensures
        r == spec_align(from, to),
        quat_in(r, SCALE as int),
{
    if from.len_sq() == 0 || to.len_sq() == 0 {
        return Quat { x: 0, y: 0, z: 0, w: SCALE };
    }
    proof {
        assert(from.x * from.x >= 0 && from.y * from.y >= 0 && from.z * from.z >= 0)
            by (nonlinear_arith);
        assert(to.x * to.x >= 0 && to.y * to.y >= 0 && to.z * to.z >= 0) by (nonlinear_arith);
    }
    let f = from.normalized();
    let t = to.normalized();
    proof {
        lemma_vec_pair_fits(f, t, SCALE as int, SCALE as int);
        lemma_cross_bound(f, t, SCALE as int, SCALE as int);
        crate::vec3::lemma_dot_bound(f, t, SCALE as int, SCALE as int);
    }
    let axv = f.cross(t);
    let lsq: i64 = axv.len_sq();
    if lsq == 0 {
        let d: i64 = f.dot(t);
        if d < 0 {
            Quat { x: SCALE, y: 0, z: 0, w: 0 }
        } else {
            Quat { x: 0, y: 0, z: 0, w: SCALE }
        }
    } else {
        let d: i64 = f.dot(t);
        let wr: i64 = SCALE + d;
        proof {
            crate::fx::lemma_mul_bound(wr as int, wr as int, 4000, 4000);
            assert(wr * wr >= 0) by (nonlinear_arith);
            crate::fx::lemma_mul_bound(axv.x as int, axv.x as int, 2000, 2000);
            crate::fx::lemma_mul_bound(axv.y as int, axv.y as int, 2000, 2000);
            crate::fx::lemma_mul_bound(axv.z as int, axv.z as int, 2000, 2000);
            assert(axv.x * axv.x >= 0 && axv.y * axv.y >= 0 && axv.z * axv.z >= 0)
                by (nonlinear_arith);
        }
        let n4sq: i64 = lsq + wr * wr;
        let n4u: u64 = isqrt(n4sq as u64);
        let n4: i64 = n4u as i64;
        proof {
            assert((n4u as int) <= 10_000) by (nonlinear_arith)
                requires
                    (n4u as int) * (n4u as int) <= 28_000_000,
                    n4u >= 0,
            ;
            assert(n4 >= 1) by {
                if n4u == 0 {
                    assert((0 + 1) * (0 + 1) > n4sq as int);
                }
            }
            assert(axv.x * axv.x >= 0 && axv.y * axv.y >= 0 && axv.z * axv.z >= 0)
                by (nonlinear_arith);
            lemma_comp_le_len(axv.x as int, n4sq as int, n4 as int);
            lemma_comp_le_len(axv.y as int, n4sq as int, n4 as int);
            lemma_comp_le_len(axv.z as int, n4sq as int, n4 as int);
            lemma_comp_le_len(wr as int, n4sq as int, n4 as int);
            lemma_scaled_div_unit(axv.x as int, n4 as int);
            lemma_scaled_div_unit(axv.y as int, n4 as int);
            lemma_scaled_div_unit(axv.z as int, n4 as int);
            lemma_scaled_div_unit(wr as int, n4 as int);
        }
        Quat {
            x: div_trunc(axv.x * SCALE, n4),
            y: div_trunc(axv.y * SCALE, n4),
            z: div_trunc(axv.z * SCALE, n4),
            w: div_trunc(wr * SCALE, n4),
        }
    }
}

} // verus!
