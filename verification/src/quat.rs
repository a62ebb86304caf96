//! Rotation quaternions over fixed-point scalars.

use vstd::prelude::*;

verus! {

use crate::fx::{SCALE, spec_fmul, lemma_fmul_bound};
use crate::vec3::{Vec3, vec_in, lemma_vec_pair_fits, lemma_vec_mul_fits};

/// A rotation; components hold `SCALE` steps per unit, so a unit quaternion
/// has components within `[-SCALE, SCALE]`.
#[derive(Clone, Copy, Debug, PartialEq, Eq, Structural)]
pub struct Quat {
    pub x: i64,
    pub y: i64,
    pub z: i64,
    pub w: i64,
}

/// Every component within `[-b, b]`.
pub open spec fn quat_in(q: Quat, b: int) -> bool {
    &&& -b <= q.x <= b
    &&& -b <= q.y <= b
    &&& -b <= q.z <= b
    &&& -b <= q.w <= b
}

/// Rotation of `v` by `q` as `v + w*t + qv x t` with `t = 2 * (qv x v)`,
/// one component per tuple slot.
pub open spec fn spec_rotate(q: Quat, v: Vec3) -> (int, int, int) {
    let tx = (spec_fmul(q.y as int, v.z as int) - spec_fmul(q.z as int, v.y as int)) * 2;
    let ty = (spec_fmul(q.z as int, v.x as int) - spec_fmul(q.x as int, v.z as int)) * 2;
    let tz = (spec_fmul(q.x as int, v.y as int) - spec_fmul(q.y as int, v.x as int)) * 2;
    (
        v.x + spec_fmul(tx, q.w as int) + (spec_fmul(q.y as int, tz) - spec_fmul(q.z as int, ty)),
        v.y + spec_fmul(ty, q.w as int) + (spec_fmul(q.z as int, tx) - spec_fmul(q.x as int, tz)),
        v.z + spec_fmul(tz, q.w as int) + (spec_fmul(q.x as int, ty) - spec_fmul(q.y as int, tx)),
    )
}

impl Quat {
    /// Builds a quaternion from raw fixed-point components.
    pub fn new(x: i64, y: i64, z: i64, w: i64) -> (r: Quat)
        ensures
            r == (Quat { x, y, z, w }),
    {
        Quat { x, y, z, w }
    }

    /// The identity rotation.
    pub fn identity() -> (r: Quat)
        ensures
            r == (Quat { x: 0, y: 0, z: 0, w: SCALE }),
    {
        Quat { x: 0, y: 0, z: 0, w: SCALE }
    }

    /// Applies the rotation to a vector.
    pub fn rotate(self, v: Vec3) -> (r: Vec3)
        requires
            quat_in(self, SCALE as int),
            vec_in(v, 1_000_000_000),
        ensures
            r.x == spec_rotate(self, v).0,
            r.y == spec_rotate(self, v).1,
            r.z == spec_rotate(self, v).2,
            vec_in(r, 13_000_000_000),
    {
        let qv = Vec3 { x: self.x, y: self.y, z: self.z };
        proof {
            lemma_vec_pair_fits(qv, v, SCALE as int, 1_000_000_000);
            crate::vec3::lemma_cross_bound(qv, v, SCALE as int, 1_000_000_000);
        }
        let c = qv.cross(v);
        let t = c.plus(c);
        proof {
            lemma_vec_mul_fits(t, self.w as int, 4_000_000_000, SCALE as int);
            lemma_fmul_bound(t.x as int, self.w as int, 4_000_000_000, SCALE as int);
            lemma_fmul_bound(t.y as int, self.w as int, 4_000_000_000, SCALE as int);
            lemma_fmul_bound(t.z as int, self.w as int, 4_000_000_000, SCALE as int);
            lemma_vec_pair_fits(qv, t, SCALE as int, 4_000_000_000);
            crate::vec3::lemma_cross_bound(qv, t, SCALE as int, 4_000_000_000);
        }
        let wt = t.scaled(self.w);
        let c2 = qv.cross(t);
        let r = v.plus(wt).plus(c2);
        r
    }
}

/// Componentwise bound of a rotated vector in terms of the input bound.
pub proof fn lemma_spec_rotate_bound(q: Quat, v: Vec3, bv: int)
    requires
        quat_in(q, SCALE as int),
        vec_in(v, bv),
        0 <= bv,
    ensures
        -13 * bv <= spec_rotate(q, v).0 <= 13 * bv,
        -13 * bv <= spec_rotate(q, v).1 <= 13 * bv,
        -13 * bv <= spec_rotate(q, v).2 <= 13 * bv,
{
    let s = SCALE as int;
    lemma_fmul_bound(q.y as int, v.z as int, s, bv);
    lemma_fmul_bound(q.z as int, v.y as int, s, bv);
    lemma_fmul_bound(q.z as int, v.x as int, s, bv);
    lemma_fmul_bound(q.x as int, v.z as int, s, bv);
    lemma_fmul_bound(q.x as int, v.y as int, s, bv);
    lemma_fmul_bound(q.y as int, v.x as int, s, bv);
    assert((s * bv) / s == bv) by (nonlinear_arith)
        requires
            s == 1000,
            bv >= 0,
    ;
    let tx = (spec_fmul(q.y as int, v.z as int) - spec_fmul(q.z as int, v.y as int)) * 2;
    let ty = (spec_fmul(q.z as int, v.x as int) - spec_fmul(q.x as int, v.z as int)) * 2;
    let tz = (spec_fmul(q.x as int, v.y as int) - spec_fmul(q.y as int, v.x as int)) * 2;
    lemma_fmul_bound(tx, q.w as int, 4 * bv, s);
    lemma_fmul_bound(ty, q.w as int, 4 * bv, s);
    lemma_fmul_bound(tz, q.w as int, 4 * bv, s);
    lemma_fmul_bound(q.y as int, tz, s, 4 * bv);
    lemma_fmul_bound(q.z as int, ty, s, 4 * bv);
    lemma_fmul_bound(q.z as int, tx, s, 4 * bv);
    lemma_fmul_bound(q.x as int, tz, s, 4 * bv);
    lemma_fmul_bound(q.x as int, ty, s, 4 * bv);
    lemma_fmul_bound(q.y as int, tx, s, 4 * bv);
    assert(((4 * bv) * s) / s == 4 * bv) by (nonlinear_arith)
        requires
            s == 1000,
            bv >= 0,
    ;
    assert((s * (4 * bv)) / s == 4 * bv) by (nonlinear_arith)
        requires
            s == 1000,
            bv >= 0,
    ;
}

} // verus!
