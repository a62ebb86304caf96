//! A rigid-body collision core for oriented boxes: pairwise narrow-phase
//! detection (axis-aligned slab test and separating-axis test), contact
//! manifolds, and impulse-style resolution for player-vs-geometry and
//! object-vs-object interactions.
//!
//! Every scalar is an `i64` fixed-point number with [`fx::SCALE`] steps per
//! world unit, so the whole pipeline is exact integer arithmetic and each
//! function carries a proved contract.

pub mod fx;
pub mod vec3;
pub mod quat;
pub mod angles;
pub mod bodies;
pub mod detect;
pub mod player;
pub mod resolve;
pub mod world;
