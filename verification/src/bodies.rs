//! Rigid bodies, their colliders, and contact manifolds.

use vstd::prelude::*;

verus! {

use crate::fx::SCALE;
use crate::vec3::{Vec3, vec_in};
use crate::quat::{Quat, quat_in, spec_rotate};

/// Linear and angular velocity of a body.
#[derive(Clone, Copy, Debug, PartialEq, Eq, Structural)]
pub struct Velocity {
    pub linear: Vec3,
    pub angular: Vec3,
}

/// Damping coefficients of a body.
#[derive(Clone, Copy, Debug, PartialEq, Eq, Structural)]
pub struct Damping {
    pub linear: i64,
}

/// Whether a body is ever repositioned or has its velocity changed by
/// resolution.
#[derive(Clone, Copy, Debug, PartialEq, Eq, Structural)]
pub enum RigidbodyType {
    Static,
    Dynamic,
}

/// The world-space corner positions derived from an oriented box.
#[derive(Clone, Copy, Debug, PartialEq, Eq)]
pub struct ColliderVertexInfo {
    pub vertices: [Vec3; 8],
}

/// An oriented-box collider with its derived world-space axis and vertex
/// caches.
#[derive(Clone, Copy, Debug, PartialEq, Eq)]
pub struct Collider {
    pub center: Vec3,
    pub half_extents: Vec3,
    pub rotation: Quat,
    pub axes: [Vec3; 3],
    pub vertex_info: ColliderVertexInfo,
}

/// A body's physical state bound to its collider.
#[derive(Clone, Copy, Debug, PartialEq, Eq)]
pub struct RigidbodyComponent {
    pub collider: Collider,
    pub velocity: Velocity,
    pub inverse_mass: i64,
    pub friction: i64,
    pub restitution: i64,
    pub damping: Damping,
    pub rbt: RigidbodyType,
}

/// The world placement the scene scheduler owns for an entity.
#[derive(Clone, Copy, Debug, PartialEq, Eq, Structural)]
pub struct Transform {
    pub translation: Vec3,
}

/// One detected overlap: separation normal, depth, contact points, and the
/// two bodies' velocities at detection time.
#[derive(Clone, Copy, Debug, PartialEq, Eq, Structural)]
pub struct ContactInfo {
    pub normal: Vec3,
    pub penetration_depth: i64,
    pub contact_point_a: Vec3,
    pub contact_point_b: Vec3,
    pub a_vel: Velocity,
    pub b_vel: Velocity,
}

/// The collider's own fields within `b` with a well-formed rotation.
pub open spec fn collider_in(c: Collider, b: int) -> bool {
    &&& vec_in(c.center, b)
    &&& vec_in(c.half_extents, b)
    &&& quat_in(c.rotation, SCALE as int)
}

/// Every cached axis within `b`.
pub open spec fn axes_in(c: Collider, b: int) -> bool {
    forall|i: int| 0 <= i < 3 ==> vec_in(#[trigger] c.axes[i], b)
}

/// Every cached corner within `b`.
pub open spec fn vertices_in(c: Collider, b: int) -> bool {
    forall|i: int| 0 <= i < 8 ==> vec_in(#[trigger] c.vertex_info.vertices[i], b)
}

/// A rotated vector's components, cast back to scalars.
pub open spec fn axis_of(q: Quat, u: Vec3) -> Vec3 {
    Vec3 {
        x: spec_rotate(q, u).0 as i64,
        y: spec_rotate(q, u).1 as i64,
        z: spec_rotate(q, u).2 as i64,
    }
}

/// One oriented-box corner: the rotated signed half-extent offset from the
/// center.  The flags pick the positive or negative extent per axis.
pub open spec fn vert_spec(center: Vec3, he: Vec3, q: Quat, px: bool, py: bool, pz: bool) -> Vec3 {
    let corner = Vec3 {
        x: if px {
            he.x
        } else {
            ((0 - he.x) as i64)
        },
        y: if py {
            he.y
        } else {
            ((0 - he.y) as i64)
        },
        z: if pz {
            he.z
        } else {
            ((0 - he.z) as i64)
        },
    };
    let r = spec_rotate(q, corner);
    Vec3 {
        x: (center.x + r.0) as i64,
        y: (center.y + r.1) as i64,
        z: (center.z + r.2) as i64,
    }
}

/// Corner `i` of an oriented box, the three low bits of `i` picking the
/// sign per axis.
pub open spec fn spec_vertex(center: Vec3, he: Vec3, q: Quat, i: int) -> Vec3 {
    vert_spec(center, he, q, i % 2 == 1, (i / 2) % 2 == 1, (i / 4) % 2 == 1)
}

/// The collider with both derived caches recomputed from its current
/// center, half-extents and rotation.
pub open spec fn spec_refreshed(c: Collider) -> Collider {
    Collider {
        axes: [
            axis_of(c.rotation, Vec3 { x: SCALE, y: 0, z: 0 }),
            axis_of(c.rotation, Vec3 { x: 0, y: SCALE, z: 0 }),
            axis_of(c.rotation, Vec3 { x: 0, y: 0, z: SCALE }),
        ],
        vertex_info: ColliderVertexInfo {
            vertices: [
                spec_vertex(c.center, c.half_extents, c.rotation, 0),
                spec_vertex(c.center, c.half_extents, c.rotation, 1),
                spec_vertex(c.center, c.half_extents, c.rotation, 2),
                spec_vertex(c.center, c.half_extents, c.rotation, 3),
                spec_vertex(c.center, c.half_extents, c.rotation, 4),
                spec_vertex(c.center, c.half_extents, c.rotation, 5),
                spec_vertex(c.center, c.half_extents, c.rotation, 6),
                spec_vertex(c.center, c.half_extents, c.rotation, 7),
            ],
        },
        ..c
    }
}

/// One world-space corner of the oriented box.
fn vertex_at(center: Vec3, he: Vec3, q: Quat, px: bool, py: bool, pz: bool) -> (r: Vec3)
    requires
        vec_in(center, 1_000_000_000),
        vec_in(he, 1_000_000_000),
        quat_in(q, SCALE as int),
    ensures
        r == vert_spec(center, he, q, px, py, pz),
        vec_in(r, 14_000_000_000),
{
    let cx: i64 = if px {
        he.x
    } else {
        -he.x
    };
    let cy: i64 = if py {
        he.y
    } else {
        -he.y
    };
    let cz: i64 = if pz {
        he.z
    } else {
        -he.z
    };
    let rot = q.rotate(Vec3 { x: cx, y: cy, z: cz });
    center.plus(rot)
}

impl ColliderVertexInfo {
    /// The eight world-space corners of an oriented box.
    #[verifier::rlimit(80)]
    pub fn from_cuboid(center: &Vec3, half_extents: &Vec3, rotation: &Quat) -> (r:
        ColliderVertexInfo)
        requires
            vec_in(*center, 1_000_000_000),
            vec_in(*half_extents, 1_000_000_000),
            quat_in(*rotation, SCALE as int),
        ensures
            forall|i: int|
                0 <= i < 8 ==> #[trigger] r.vertices[i] == spec_vertex(
                    *center,
                    *half_extents,
                    *rotation,
                    i,
                ),
            forall|i: int| 0 <= i < 8 ==> vec_in(#[trigger] r.vertices[i], 14_000_000_000),
    {
        let v0 = vertex_at(*center, *half_extents, *rotation, false, false, false);
        let v1 = vertex_at(*center, *half_extents, *rotation, true, false, false);
        let v2 = vertex_at(*center, *half_extents, *rotation, false, true, false);
        let v3 = vertex_at(*center, *half_extents, *rotation, true, true, false);
        let v4 = vertex_at(*center, *half_extents, *rotation, false, false, true);
        let v5 = vertex_at(*center, *half_extents, *rotation, true, false, true);
        let v6 = vertex_at(*center, *half_extents, *rotation, false, true, true);
        let v7 = vertex_at(*center, *half_extents, *rotation, true, true, true);
        let r = ColliderVertexInfo { vertices: [v0, v1, v2, v3, v4, v5, v6, v7] };
        r
    }
}

impl Collider {
    /// Builds a collider from its box data; both caches start consistent
    /// with the rotation.
    pub fn new(center: Vec3, half_extents: Vec3, rotation: Quat) -> (r: Collider)
        requires
            vec_in(center, 1_000_000_000),
            vec_in(half_extents, 1_000_000_000),
            quat_in(rotation, SCALE as int),
        ensures
            collider_in(r, 1_000_000_000),
            axes_in(r, 13_000),
            vertices_in(r, 14_000_000_000),
            r == spec_refreshed(
                Collider {
                    center,
                    half_extents,
                    rotation,
                    axes: [
                        Vec3 { x: 0, y: 0, z: 0 },
                        Vec3 { x: 0, y: 0, z: 0 },
                        Vec3 { x: 0, y: 0, z: 0 },
                    ],
                    vertex_info: ColliderVertexInfo {
                        vertices: [
                            Vec3 { x: 0, y: 0, z: 0 },
                            Vec3 { x: 0, y: 0, z: 0 },
                            Vec3 { x: 0, y: 0, z: 0 },
                            Vec3 { x: 0, y: 0, z: 0 },
                            Vec3 { x: 0, y: 0, z: 0 },
                            Vec3 { x: 0, y: 0, z: 0 },
                            Vec3 { x: 0, y: 0, z: 0 },
                            Vec3 { x: 0, y: 0, z: 0 },
                        ],
                    },
                },
            ),
    {
        let zero = Vec3 { x: 0, y: 0, z: 0 };
        let mut c = Collider {
            center,
            half_extents,
            rotation,
            axes: [zero, zero, zero],
            vertex_info: ColliderVertexInfo {
                vertices: [zero, zero, zero, zero, zero, zero, zero, zero],
            },
        };
        c.refresh();
        c
    }

    /// Recomputes the world-space axes and corner cache from the current
    /// rotation, center and half-extents.
    #[verifier::rlimit(80)]
    pub fn refresh(&mut self)
        requires
            collider_in(*old(self), 1_000_000_000),
        ensures
            *final(self) == spec_refreshed(*old(self)),
            collider_in(*final(self), 1_000_000_000),
            axes_in(*final(self), 13_000),
            vertices_in(*final(self), 14_000_000_000),
    {
        proof {
            crate::quat::lemma_spec_rotate_bound(
                self.rotation,
                Vec3 { x: SCALE, y: 0, z: 0 },
                SCALE as int,
            );
            crate::quat::lemma_spec_rotate_bound(
                self.rotation,
                Vec3 { x: 0, y: SCALE, z: 0 },
                SCALE as int,
            );
            crate::quat::lemma_spec_rotate_bound(
                self.rotation,
                Vec3 { x: 0, y: 0, z: SCALE },
                SCALE as int,
            );
        }
        let ax = self.rotation.rotate(Vec3 { x: SCALE, y: 0, z: 0 });
        let ay = self.rotation.rotate(Vec3 { x: 0, y: SCALE, z: 0 });
        let az = self.rotation.rotate(Vec3 { x: 0, y: 0, z: SCALE });
        self.axes = [ax, ay, az];
        self.vertex_info = ColliderVertexInfo::from_cuboid(
            &self.center,
            &self.half_extents,
            &self.rotation,
        );
        proof {
            assert(final(self).axes =~= spec_refreshed(*old(self)).axes);
            assert(final(self).vertex_info.vertices =~= spec_refreshed(
                *old(self),
            ).vertex_info.vertices);
        }
    }

    /// The candidate separating axes for a pair of boxes: the three world
    /// axes of each.
    pub fn get_axes(&self, other: &Collider) -> (r: [Vec3; 6])
        ensures
            r[0] == self.axes[0],
            r[1] == self.axes[1],
            r[2] == self.axes[2],
            r[3] == other.axes[0],
            r[4] == other.axes[1],
            r[5] == other.axes[2],
    {
        [self.axes[0], self.axes[1], self.axes[2], other.axes[0], other.axes[1], other.axes[2]]
    }
}

/// Refreshing an already refreshed collider changes nothing: the caches are
/// a function of the box data alone, which a refresh never touches.
pub proof fn lemma_refresh_idempotent(c: Collider)
    ensures
        spec_refreshed(spec_refreshed(c)) == spec_refreshed(c),
{
    assert(spec_refreshed(spec_refreshed(c)).axes =~= spec_refreshed(c).axes);
    assert(spec_refreshed(spec_refreshed(c)).vertex_info.vertices =~= spec_refreshed(
        c,
    ).vertex_info.vertices);
}

/// Magnitude limits under which one object-pair resolution step cannot
/// overflow: coordinates within a thousand kilounits, velocities within
/// ten thousand units per tick, material coefficients within four units,
/// and an inverse mass within a thousand units.
pub open spec fn body_in_limits(x: RigidbodyComponent) -> bool {
    &&& vec_in(x.collider.center, 1_000_000_000)
    &&& quat_in(x.collider.rotation, SCALE as int)
    &&& vec_in(x.velocity.linear, 10_000_000)
    &&& 0 <= x.inverse_mass <= 1_000_000
    &&& -4_000 <= x.friction <= 4_000
    &&& -4_000 <= x.restitution <= 4_000
    &&& -4_000 <= x.damping.linear <= 4_000
}

/// Magnitude limits on a contact manifold fed to resolution.
pub open spec fn contact_in_limits(c: ContactInfo) -> bool {
    &&& vec_in(c.normal, SCALE as int)
    &&& 0 <= c.penetration_depth <= 100_000_000_000
    &&& vec_in(c.a_vel.linear, 10_000_000)
    &&& vec_in(c.b_vel.linear, 10_000_000)
}


impl RigidbodyComponent {
    /// Whether the body lies within the magnitude limits of a resolution
    /// step.
    pub fn limits_check(&self) -> (r: bool)
        ensures
            r == body_in_limits(*self),
    {
        self.collider.center.in_bounds(1_000_000_000) && -SCALE <= self.collider.rotation.x
            && self.collider.rotation.x <= SCALE && -SCALE <= self.collider.rotation.y
            && self.collider.rotation.y <= SCALE && -SCALE <= self.collider.rotation.z
            && self.collider.rotation.z <= SCALE && -SCALE <= self.collider.rotation.w
            && self.collider.rotation.w <= SCALE && self.velocity.linear.in_bounds(10_000_000)
            && 0 <= self.inverse_mass && self.inverse_mass <= 1_000_000 && -4_000 <= self.friction
            && self.friction <= 4_000 && -4_000 <= self.restitution && self.restitution <= 4_000
            && -4_000 <= self.damping.linear && self.damping.linear <= 4_000
    }
}

impl Collider {
    /// Whether the derived caches lie within the bounds a refresh
    /// guarantees, as the separating-axis test needs.
    pub fn caches_check(&self) -> (r: bool)
        ensures
            r == (axes_in(*self, 13_000) && vertices_in(*self, 14_000_000_000)),
    {
        let r = self.axes[0].in_bounds(13_000) && self.axes[1].in_bounds(13_000)
            && self.axes[2].in_bounds(13_000) && self.vertex_info.vertices[0].in_bounds(
            14_000_000_000,
        ) && self.vertex_info.vertices[1].in_bounds(14_000_000_000)
            && self.vertex_info.vertices[2].in_bounds(14_000_000_000)
            && self.vertex_info.vertices[3].in_bounds(14_000_000_000)
            && self.vertex_info.vertices[4].in_bounds(14_000_000_000)
            && self.vertex_info.vertices[5].in_bounds(14_000_000_000)
            && self.vertex_info.vertices[6].in_bounds(14_000_000_000)
            && self.vertex_info.vertices[7].in_bounds(14_000_000_000);
        proof {
            if r {
                assert forall|i: int| 0 <= i < 3 implies vec_in(#[trigger] self.axes[i], 13_000) by {
                    if i == 0 {
                    } else if i == 1 {
                    } else {
                    }
                }
                assert forall|i: int| 0 <= i < 8 implies vec_in(
                    #[trigger] self.vertex_info.vertices[i],
                    14_000_000_000,
                ) by {
                }
            } else {
            }
        }
        r
    }
}

} // verus!
