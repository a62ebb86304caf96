//! Three-component vectors over fixed-point scalars.

use vstd::prelude::*;

verus! {

use crate::fx::{
    SCALE, spec_fmul, spec_isqrt, is_isqrt, tdiv, fmul, isqrt, div_trunc, lemma_fmul_bound,
    lemma_tdiv_bound,
};

/// A world-space vector; each component holds `SCALE` steps per unit.
#[derive(Clone, Copy, Debug, PartialEq, Eq, Structural)]
pub struct Vec3 {
    pub x: i64,
    pub y: i64,
    pub z: i64,
}

/// Every component within `[-b, b]`.
pub open spec fn vec_in(v: Vec3, b: int) -> bool {
    &&& -b <= v.x <= b
    &&& -b <= v.y <= b
    &&& -b <= v.z <= b
}

/// Raw sum of squared components (carries two `SCALE` factors).
pub open spec fn norm_sq(v: Vec3) -> int {
    v.x * v.x + v.y * v.y + v.z * v.z
}

/// Fixed-point dot product.
pub open spec fn spec_dot(a: Vec3, b: Vec3) -> int {
    spec_fmul(a.x as int, b.x as int) + spec_fmul(a.y as int, b.y as int) + spec_fmul(
        a.z as int,
        b.z as int,
    )
}

/// Fixed-point cross product, one component per tuple slot.
pub open spec fn spec_cross(a: Vec3, b: Vec3) -> (int, int, int) {
    (
        spec_fmul(a.y as int, b.z as int) - spec_fmul(a.z as int, b.y as int),
        spec_fmul(a.z as int, b.x as int) - spec_fmul(a.x as int, b.z as int),
        spec_fmul(a.x as int, b.y as int) - spec_fmul(a.y as int, b.x as int),
    )
}

/// Fixed-point length: the integer square root of the raw squared norm.
pub open spec fn spec_len(v: Vec3) -> int {
    spec_isqrt(norm_sq(v))
}

/// Components of the normalized vector (meaningful when `norm_sq(v) > 0`).
pub open spec fn spec_normalized(v: Vec3) -> (int, int, int) {
    let l = spec_len(v);
    (
        tdiv(v.x * (SCALE as int), l),
        tdiv(v.y * (SCALE as int), l),
        tdiv(v.z * (SCALE as int), l),
    )
}

/// A vector whose components are the tuple's values, cast back to scalars.
pub open spec fn vec3_of(t: (int, int, int)) -> Vec3 {
    Vec3 { x: t.0 as i64, y: t.1 as i64, z: t.2 as i64 }
}

/// One of the six signed cardinal unit vectors.
pub open spec fn is_cardinal_unit(v: Vec3) -> bool {
    ||| v == (Vec3 { x: SCALE, y: 0, z: 0 })
    ||| v == (Vec3 { x: (-1000i64), y: 0, z: 0 })
    ||| v == (Vec3 { x: 0, y: SCALE, z: 0 })
    ||| v == (Vec3 { x: 0, y: (-1000i64), z: 0 })
    ||| v == (Vec3 { x: 0, y: 0, z: SCALE })
    ||| v == (Vec3 { x: 0, y: 0, z: (-1000i64) })
}

impl Vec3 {
    /// Builds a vector from raw fixed-point components.
    pub fn new(x: i64, y: i64, z: i64) -> (r: Vec3)
        ensures
            r == (Vec3 { x, y, z }),
    {
        Vec3 { x, y, z }
    }

    /// The zero vector.
    pub fn zero() -> (r: Vec3)
        ensures
            r == (Vec3 { x: 0, y: 0, z: 0 }),
    {
        Vec3 { x: 0, y: 0, z: 0 }
    }

    /// Whether every component lies within `[-b, b]`.
    pub fn in_bounds(self, b: i64) -> (r: bool)
        requires
            b >= 0,
        ensures
            r == vec_in(self, b as int),
    {
        -b <= self.x && self.x <= b && -b <= self.y && self.y <= b && -b <= self.z && self.z <= b
    }

    /// Componentwise sum.
    pub fn plus(self, o: Vec3) -> (r: Vec3)
        requires
            -i64::MAX <= self.x + o.x <= i64::MAX,
            -i64::MAX <= self.y + o.y <= i64::MAX,
            -i64::MAX <= self.z + o.z <= i64::MAX,
        ensures
            r.x == self.x + o.x,
            r.y == self.y + o.y,
            r.z == self.z + o.z,
    {
        Vec3 { x: self.x + o.x, y: self.y + o.y, z: self.z + o.z }
    }

    /// Componentwise difference.
    pub fn minus(self, o: Vec3) -> (r: Vec3)
        requires
            -i64::MAX <= self.x - o.x <= i64::MAX,
            -i64::MAX <= self.y - o.y <= i64::MAX,
            -i64::MAX <= self.z - o.z <= i64::MAX,
        ensures
            r.x == self.x - o.x,
            r.y == self.y - o.y,
            r.z == self.z - o.z,
    {
        Vec3 { x: self.x - o.x, y: self.y - o.y, z: self.z - o.z }
    }

    /// Fixed-point scaling of every component by `k`.
    pub fn scaled(self, k: i64) -> (r: Vec3)
        requires
            -i64::MAX <= self.x * k <= i64::MAX,
            -i64::MAX <= self.y * k <= i64::MAX,
            -i64::MAX <= self.z * k <= i64::MAX,
        ensures
            r.x == spec_fmul(self.x as int, k as int),
            r.y == spec_fmul(self.y as int, k as int),
            r.z == spec_fmul(self.z as int, k as int),
    {
        Vec3 { x: fmul(self.x, k), y: fmul(self.y, k), z: fmul(self.z, k) }
    }

    /// Fixed-point dot product.
    pub fn dot(self, o: Vec3) -> (r: i64)
        requires
            -(i64::MAX / 4) <= self.x * o.x <= i64::MAX / 4,
            -(i64::MAX / 4) <= self.y * o.y <= i64::MAX / 4,
            -(i64::MAX / 4) <= self.z * o.z <= i64::MAX / 4,
        ensures
            r == spec_dot(self, o),
    {
        proof {
            lemma_tdiv_bound(self.x * o.x, SCALE as int, i64::MAX as int / 4);
            lemma_tdiv_bound(self.y * o.y, SCALE as int, i64::MAX as int / 4);
            lemma_tdiv_bound(self.z * o.z, SCALE as int, i64::MAX as int / 4);
        }
        let px: i64 = fmul(self.x, o.x);
        let py: i64 = fmul(self.y, o.y);
        let pz: i64 = fmul(self.z, o.z);
        px + py + pz
    }

    /// Fixed-point cross product.
    pub fn cross(self, o: Vec3) -> (r: Vec3)
        requires
            -(i64::MAX / 4) <= self.x * o.y <= i64::MAX / 4,
            -(i64::MAX / 4) <= self.x * o.z <= i64::MAX / 4,
            -(i64::MAX / 4) <= self.y * o.x <= i64::MAX / 4,
            -(i64::MAX / 4) <= self.y * o.z <= i64::MAX / 4,
            -(i64::MAX / 4) <= self.z * o.x <= i64::MAX / 4,
            -(i64::MAX / 4) <= self.z * o.y <= i64::MAX / 4,
        ensures
            r.x == spec_cross(self, o).0,
            r.y == spec_cross(self, o).1,
            r.z == spec_cross(self, o).2,
    {
        proof {
            lemma_tdiv_bound(self.y * o.z, SCALE as int, i64::MAX as int / 4);
            lemma_tdiv_bound(self.z * o.y, SCALE as int, i64::MAX as int / 4);
            lemma_tdiv_bound(self.z * o.x, SCALE as int, i64::MAX as int / 4);
            lemma_tdiv_bound(self.x * o.z, SCALE as int, i64::MAX as int / 4);
            lemma_tdiv_bound(self.x * o.y, SCALE as int, i64::MAX as int / 4);
            lemma_tdiv_bound(self.y * o.x, SCALE as int, i64::MAX as int / 4);
        }
        Vec3 {
            x: fmul(self.y, o.z) - fmul(self.z, o.y),
            y: fmul(self.z, o.x) - fmul(self.x, o.z),
            z: fmul(self.x, o.y) - fmul(self.y, o.x),
        }
    }

    /// Raw squared norm.
    pub fn len_sq(self) -> (r: i64)
        requires
            vec_in(self, 1_500_000_000),
        ensures
            r == norm_sq(self),
    {
        proof {
            crate::fx::lemma_mul_bound(self.x as int, self.x as int, 1_500_000_000, 1_500_000_000);
            crate::fx::lemma_mul_bound(self.y as int, self.y as int, 1_500_000_000, 1_500_000_000);
            crate::fx::lemma_mul_bound(self.z as int, self.z as int, 1_500_000_000, 1_500_000_000);
            assert(self.x * self.x >= 0 && self.y * self.y >= 0 && self.z * self.z >= 0)
                by (nonlinear_arith);
        }
        self.x * self.x + self.y * self.y + self.z * self.z
    }

    /// Fixed-point length.
    pub fn length(self) -> (r: i64)
        requires
            vec_in(self, 1_500_000_000),
        ensures
            r == spec_len(self),
            is_isqrt(norm_sq(self), r as int),
            0 <= r <= 2_600_000_000,
    {
        proof {
            assert(self.x * self.x <= 2_250_000_000_000_000_000 && self.x * self.x >= 0)
                by (nonlinear_arith)
                requires
                    -1_500_000_000 <= self.x <= 1_500_000_000,
            ;
            assert(self.y * self.y <= 2_250_000_000_000_000_000 && self.y * self.y >= 0)
                by (nonlinear_arith)
                requires
                    -1_500_000_000 <= self.y <= 1_500_000_000,
            ;
            assert(self.z * self.z <= 2_250_000_000_000_000_000 && self.z * self.z >= 0)
                by (nonlinear_arith)
                requires
                    -1_500_000_000 <= self.z <= 1_500_000_000,
            ;
        }
        let sq: i64 = self.x * self.x + self.y * self.y + self.z * self.z;
        let root: u64 = isqrt(sq as u64);
        proof {
            assert((root as int) <= 2_600_000_000) by (nonlinear_arith)
                requires
                    (root as int) * (root as int) <= 6_750_000_000_000_000_000,
                    root >= 0,
            ;
        }
        root as i64
    }

    /// Scales the vector to unit length (`SCALE`), rounding toward zero.
    pub fn normalized(self) -> (r: Vec3)
        requires
            vec_in(self, 1_500_000_000),
            norm_sq(self) > 0,
        ensures
            r.x == spec_normalized(self).0,
            r.y == spec_normalized(self).1,
            r.z == spec_normalized(self).2,
            vec_in(r, SCALE as int),
    {
        let len: i64 = self.length();
        proof {
            assert(len >= 1) by {
                if len == 0 {
                    assert((0 + 1) * (0 + 1) > norm_sq(self));
                }
            }
            assert(self.x * self.x >= 0 && self.y * self.y >= 0 && self.z * self.z >= 0)
                by (nonlinear_arith);
            lemma_comp_le_len(self.x as int, norm_sq(self), len as int);
            lemma_comp_le_len(self.y as int, norm_sq(self), len as int);
            lemma_comp_le_len(self.z as int, norm_sq(self), len as int);
            lemma_scaled_div_unit(self.x as int, len as int);
            lemma_scaled_div_unit(self.y as int, len as int);
            lemma_scaled_div_unit(self.z as int, len as int);
        }
        Vec3 {
            x: div_trunc(self.x * SCALE, len),
            y: div_trunc(self.y * SCALE, len),
            z: div_trunc(self.z * SCALE, len),
        }
    }
}

/// Scaling a vector bounded by `bv` with a factor bounded by `bk` cannot
/// overflow when the bound product fits.
pub proof fn lemma_vec_mul_fits(v: Vec3, k: int, bv: int, bk: int)
    requires
        vec_in(v, bv),
        -bk <= k <= bk,
        0 <= bv,
        0 <= bk,
        bv * bk <= i64::MAX,
    ensures
        -i64::MAX <= v.x * k <= i64::MAX,
        -i64::MAX <= v.y * k <= i64::MAX,
        -i64::MAX <= v.z * k <= i64::MAX,
{
    crate::fx::lemma_mul_bound(v.x as int, k, bv, bk);
    crate::fx::lemma_mul_bound(v.y as int, k, bv, bk);
    crate::fx::lemma_mul_bound(v.z as int, k, bv, bk);
}

/// Componentwise products of two bounded vectors stay within the bound
/// product; enough for `dot` and `cross` when it fits in a quarter range.
pub proof fn lemma_vec_pair_fits(a: Vec3, b: Vec3, ba: int, bb: int)
    requires
        vec_in(a, ba),
        vec_in(b, bb),
        0 <= ba,
        0 <= bb,
        ba * bb <= i64::MAX / 4,
    ensures
        -(i64::MAX / 4) <= a.x * b.x <= i64::MAX / 4,
        -(i64::MAX / 4) <= a.y * b.y <= i64::MAX / 4,
        -(i64::MAX / 4) <= a.z * b.z <= i64::MAX / 4,
        -(i64::MAX / 4) <= a.x * b.y <= i64::MAX / 4,
        -(i64::MAX / 4) <= a.x * b.z <= i64::MAX / 4,
        -(i64::MAX / 4) <= a.y * b.x <= i64::MAX / 4,
        -(i64::MAX / 4) <= a.y * b.z <= i64::MAX / 4,
        -(i64::MAX / 4) <= a.z * b.x <= i64::MAX / 4,
        -(i64::MAX / 4) <= a.z * b.y <= i64::MAX / 4,
{
    crate::fx::lemma_mul_bound(a.x as int, b.x as int, ba, bb);
    crate::fx::lemma_mul_bound(a.y as int, b.y as int, ba, bb);
    crate::fx::lemma_mul_bound(a.z as int, b.z as int, ba, bb);
    crate::fx::lemma_mul_bound(a.x as int, b.y as int, ba, bb);
    crate::fx::lemma_mul_bound(a.x as int, b.z as int, ba, bb);
    crate::fx::lemma_mul_bound(a.y as int, b.x as int, ba, bb);
    crate::fx::lemma_mul_bound(a.y as int, b.z as int, ba, bb);
    crate::fx::lemma_mul_bound(a.z as int, b.x as int, ba, bb);
    crate::fx::lemma_mul_bound(a.z as int, b.y as int, ba, bb);
}

/// Magnitude bound for the dot product of bounded vectors.
pub proof fn lemma_dot_bound(a: Vec3, b: Vec3, ba: int, bb: int)
    requires
        vec_in(a, ba),
        vec_in(b, bb),
        0 <= ba,
        0 <= bb,
    ensures
        -3 * ((ba * bb) / (SCALE as int)) <= spec_dot(a, b) <= 3 * ((ba * bb) / (SCALE as int)),
{
    lemma_fmul_bound(a.x as int, b.x as int, ba, bb);
    lemma_fmul_bound(a.y as int, b.y as int, ba, bb);
    lemma_fmul_bound(a.z as int, b.z as int, ba, bb);
}

/// Magnitude bound for each component of the cross product of bounded vectors.
pub proof fn lemma_cross_bound(a: Vec3, b: Vec3, ba: int, bb: int)
    requires
        vec_in(a, ba),
        vec_in(b, bb),
        0 <= ba,
        0 <= bb,
    ensures
        -2 * ((ba * bb) / (SCALE as int)) <= spec_cross(a, b).0 <= 2 * ((ba * bb) / (SCALE as int)),
        -2 * ((ba * bb) / (SCALE as int)) <= spec_cross(a, b).1 <= 2 * ((ba * bb) / (SCALE as int)),
        -2 * ((ba * bb) / (SCALE as int)) <= spec_cross(a, b).2 <= 2 * ((ba * bb) / (SCALE as int)),
{
    lemma_fmul_bound(a.y as int, b.z as int, ba, bb);
    lemma_fmul_bound(a.z as int, b.y as int, ba, bb);
    lemma_fmul_bound(a.z as int, b.x as int, ba, bb);
    lemma_fmul_bound(a.x as int, b.z as int, ba, bb);
    lemma_fmul_bound(a.x as int, b.y as int, ba, bb);
    lemma_fmul_bound(a.y as int, b.x as int, ba, bb);
}

/// A component's magnitude never exceeds the vector's integer length.
pub proof fn lemma_comp_le_len(c: int, n: int, len: int)
    by (nonlinear_arith)
    requires
        c * c <= n,
        is_isqrt(n, len),
    ensures
        -len <= c <= len,
{
}

/// Dividing `c * SCALE` by a length bounding `|c|` stays within one unit.
pub proof fn lemma_scaled_div_unit(c: int, len: int)
    requires
        len >= 1,
        -len <= c <= len,
    ensures
        -(SCALE as int) <= tdiv(c * (SCALE as int), len) <= SCALE as int,
{
    let s = SCALE as int;
    assert(-(len * s) <= c * s <= len * s) by (nonlinear_arith)
        requires
            -len <= c <= len,
            s > 0,
    ;
    lemma_tdiv_bound(c * s, len, len * s);
    assert((len * s) / len == s) by (nonlinear_arith)
        requires
            len >= 1,
            s > 0,
    ;
}

} // verus!
