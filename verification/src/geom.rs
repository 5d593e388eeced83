//! Fixed-point plane geometry: vectors, authoring-space rectangles and
//! screen-space wall boxes.
//!
//! All coordinates are `i64` thousandths of a world unit.  Keeping the
//! simulation on integers is what makes a replay of a thrust history
//! reproduce a run bit for bit.

use vstd::prelude::*;

verus! {

/// Coordinates are bounded so that every arithmetic step of the simulation
/// provably stays inside `i64`.
pub const COORD_LIMIT: i64 = 1_000_000;

/// A 2D fixed-point vector (thousandths of a world unit).
#[derive(Clone, Copy, Debug, PartialEq, Eq, Structural)]
pub struct Vec2 {
    pub x: i64,
    pub y: i64,
}

/// A 3D fixed-point vector; the simulation is planar, so `z` is carried
/// through unchanged and is `0` everywhere in practice.
#[derive(Clone, Copy, Debug, PartialEq, Eq, Structural)]
pub struct Vec3 {
    pub x: i64,
    pub y: i64,
    pub z: i64,
}

impl Vec2 {
    /// Lift into 3D with the given `z`.
    pub fn extend(self, z: i64) -> (v: Vec3)
        ensures
            v.x == self.x && v.y == self.y && v.z == z,
    {
        Vec3 { x: self.x, y: self.y, z }
    }

    pub open spec fn in_bounds(self) -> bool {
        -COORD_LIMIT <= self.x <= COORD_LIMIT && -COORD_LIMIT <= self.y <= COORD_LIMIT
    }
}

impl Vec3 {
    /// Drop the `z` component.
    pub fn truncate(self) -> (v: Vec2)
        ensures
            v.x == self.x && v.y == self.y,
    {
        Vec2 { x: self.x, y: self.y }
    }
}

} // verus!
