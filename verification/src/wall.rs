//! Screen-space wall boxes.
//!
//! A wall is an axis-aligned box stored as a centre and a full size; the
//! four edge accessors derive its extent.  Odd sizes lose half a unit to
//! the truncating division, exactly as the accessors state.

use vstd::prelude::*;
use crate::geom::{Vec2, Vec3, COORD_LIMIT};

verus! {

/// An axis-aligned wall box: centre and full size.
#[derive(Clone, Copy, Debug, PartialEq, Eq, Structural)]
pub struct WallPosition {
    pub translation: Vec3,
    pub size: Vec2,
}

impl WallPosition {
    /// Well-formed walls have non-negative sizes and stay inside the
    /// coordinate bounds.
    pub open spec fn wf(self) -> bool {
        &&& 0 <= self.size.x <= 2 * COORD_LIMIT
        &&& 0 <= self.size.y <= 2 * COORD_LIMIT
        &&& -COORD_LIMIT <= self.translation.x <= COORD_LIMIT
        &&& -COORD_LIMIT <= self.translation.y <= COORD_LIMIT
    }

    pub open spec fn spec_top(self) -> int {
        self.translation.y + self.size.y / 2
    }

    pub open spec fn spec_bottom(self) -> int {
        self.translation.y - self.size.y / 2
    }

    pub open spec fn spec_left(self) -> int {
        self.translation.x - self.size.x / 2
    }

    pub open spec fn spec_right(self) -> int {
        self.translation.x + self.size.x / 2
    }

    pub fn top(&self) -> (r: i64)
        requires
            self.wf(),
        ensures
            r == self.spec_top(),
    {
        self.translation.y + self.size.y / 2
    }

    pub fn bottom(&self) -> (r: i64)
        requires
            self.wf(),
        ensures
            r == self.spec_bottom(),
    {
        self.translation.y - self.size.y / 2
    }

    pub fn left(&self) -> (r: i64)
        requires
            self.wf(),
        ensures
            r == self.spec_left(),
    {
        self.translation.x - self.size.x / 2
    }

    pub fn right(&self) -> (r: i64)
        requires
            self.wf(),
        ensures
            r == self.spec_right(),
    {
        self.translation.x + self.size.x / 2
    }
}

/// Every wall of a level is well-formed.
pub open spec fn walls_wf(walls: Seq<WallPosition>) -> bool {
    forall|i: int| 0 <= i < walls.len() ==> #[trigger] walls[i].wf()
}

} // verus!
