//! The player's positioning state and identity.

use vstd::prelude::*;

verus! {

use crate::vec3::Vec3;
use crate::quat::Quat;

/// The player's world placement: location, facing, velocity, and the
/// latched grounded flag.
#[derive(Clone, Copy, Debug, PartialEq, Eq, Structural)]
pub struct PlayerPositioning {
    pub loc: Vec3,
    pub dir: Quat,
    pub vel: Vec3,
    pub grounded: bool,
}

impl PlayerPositioning {
    /// A player at `loc` facing `dir`, at rest and airborne.
    pub fn new(loc: Vec3, dir: Quat) -> (r: PlayerPositioning)
        ensures
            r == (PlayerPositioning { loc, dir, vel: Vec3 { x: 0, y: 0, z: 0 }, grounded: false }),
    {
        PlayerPositioning { loc, dir, vel: Vec3 { x: 0, y: 0, z: 0 }, grounded: false }
    }

    /// The current location.
    pub fn get_loc(&self) -> (r: Vec3)
        ensures
            r == self.loc,
    {
        self.loc
    }

    /// The current facing.
    pub fn get_dir(&self) -> (r: Quat)
        ensures
            r == self.dir,
    {
        self.dir
    }

    /// Replaces the facing.
    pub fn set_dir(&mut self, dir: Quat)
        ensures
            *final(self) == (PlayerPositioning { dir, ..*old(self) }),
    {
        self.dir = dir;
    }

    /// Replaces the location.
    pub fn set_loc(&mut self, loc: Vec3)
        ensures
            *final(self) == (PlayerPositioning { loc, ..*old(self) }),
    {
        self.loc = loc;
    }

    /// The current velocity.
    pub fn get_vel(&self) -> (r: Vec3)
        ensures
            r == self.vel,
    {
        self.vel
    }

    /// Replaces the velocity.
    pub fn set_vel(&mut self, vel: Vec3)
        ensures
            *final(self) == (PlayerPositioning { vel, ..*old(self) }),
    {
        self.vel = vel;
    }

    /// Whether the grounded flag is latched.
    pub fn is_grounded(&self) -> (r: bool)
        ensures
            r == self.grounded,
    {
        self.grounded
    }

    /// Sets or clears the grounded latch; this is the only way it is ever
    /// cleared.
    pub fn set_grounded(&mut self, grounded: bool)
        ensures
            *final(self) == (PlayerPositioning { grounded, ..*old(self) }),
    {
        self.grounded = grounded;
    }
}

/// A player's display name.
#[derive(Clone, Debug, Hash)]
pub struct PlayerUsername(pub String);

impl PlayerUsername {
    /// Wraps a borrowed name into an owned username.
    pub fn new(username: &str) -> (r: PlayerUsername)
        ensures
            r.0@ == username@,
    {
        PlayerUsername(username.to_owned())
    }
}

} // verus!
