//! Axis-aligned box collision classification.
//!
//! [`collide`] tests two boxes (centre + full size) for overlap and, when
//! they overlap, reports which side of the second box the first box hit,
//! picking the axis of least penetration.  A box that does not straddle
//! either vertical edge (and likewise horizontally) yields
//! [`Collision::Inside`]: the resolver applies no correction for such
//! corner or containment cases, an accepted approximation the ghost
//! replay depends on.

use vstd::prelude::*;
use crate::geom::{Vec2, Vec3, COORD_LIMIT};

verus! {

/// The simulation keeps every ship coordinate inside these bounds, so all
/// collision arithmetic provably fits in `i64`.
pub const SIM_LIMIT: i64 = 100_000_000_000;

/// Which side of the static box the moving box hit.
#[derive(Clone, Copy, Debug, PartialEq, Eq, Structural)]
pub enum Collision {
    Left,
    Right,
    Top,
    Bottom,
    /// Overlap without straddling a nearest edge (corner or containment);
    /// no correction is applied.
    Inside,
}

/// A box the collision test accepts: bounded centre, non-negative bounded
/// size.
pub open spec fn box_ok(pos: Vec3, size: Vec2) -> bool {
    &&& -SIM_LIMIT <= pos.x <= SIM_LIMIT
    &&& -SIM_LIMIT <= pos.y <= SIM_LIMIT
    &&& 0 <= size.x <= 4 * COORD_LIMIT
    &&& 0 <= size.y <= 4 * COORD_LIMIT
}

/// What [`collide`] returns: overlap test, side classification by strict
/// edge straddling, then least-penetration axis choice (ties go to the
/// x axis, as does a side-less axis).
pub open spec fn spec_collide(a_pos: Vec3, a_size: Vec2, b_pos: Vec3, b_size: Vec2) -> Option<
    Collision,
> {
    let a_min_x = a_pos.x - a_size.x / 2;
    let a_max_x = a_pos.x + a_size.x / 2;
    let a_min_y = a_pos.y - a_size.y / 2;
    let a_max_y = a_pos.y + a_size.y / 2;
    let b_min_x = b_pos.x - b_size.x / 2;
    let b_max_x = b_pos.x + b_size.x / 2;
    let b_min_y = b_pos.y - b_size.y / 2;
    let b_max_y = b_pos.y + b_size.y / 2;
    if a_min_x < b_max_x && a_max_x > b_min_x && a_min_y < b_max_y && a_max_y > b_min_y {
        let x_left = a_min_x < b_min_x && a_max_x < b_max_x;
        let x_right = a_min_x > b_min_x && a_max_x > b_max_x;
        let y_bottom = a_min_y < b_min_y && a_max_y < b_max_y;
        let y_top = a_min_y > b_min_y && a_max_y > b_max_y;
        let x_pen = if x_left {
            a_max_x - b_min_x
        } else {
            b_max_x - a_min_x
        };
        let y_pen = if y_bottom {
            a_max_y - b_min_y
        } else {
            b_max_y - a_min_y
        };
        if (y_bottom || y_top) && (!(x_left || x_right) || y_pen < x_pen) {
            if y_bottom {
                Some(Collision::Bottom)
            } else {
                Some(Collision::Top)
            }
        } else if x_left || x_right {
            if x_left {
                Some(Collision::Left)
            } else {
                Some(Collision::Right)
            }
        } else {
            Some(Collision::Inside)
        }
    } else {
        None
    }
}

/// Overlap test alone: `collide` reports something exactly when the two
/// open boxes intersect.
pub open spec fn spec_overlaps(a_pos: Vec3, a_size: Vec2, b_pos: Vec3, b_size: Vec2) -> bool {
    let a_min_x = a_pos.x - a_size.x / 2;
    let a_max_x = a_pos.x + a_size.x / 2;
    let a_min_y = a_pos.y - a_size.y / 2;
    let a_max_y = a_pos.y + a_size.y / 2;
    let b_min_x = b_pos.x - b_size.x / 2;
    let b_max_x = b_pos.x + b_size.x / 2;
    let b_min_y = b_pos.y - b_size.y / 2;
    let b_max_y = b_pos.y + b_size.y / 2;
    a_min_x < b_max_x && a_max_x > b_min_x && a_min_y < b_max_y && a_max_y > b_min_y
}

/// Classify the collision of box `a` against static box `b`, both given
/// as centre and full size.
pub fn collide(a_pos: Vec3, a_size: Vec2, b_pos: Vec3, b_size: Vec2) -> (r: Option<Collision>)
    requires
        box_ok(a_pos, a_size),
        box_ok(b_pos, b_size),
    ensures
        r == spec_collide(a_pos, a_size, b_pos, b_size),
        r is Some <==> spec_overlaps(a_pos, a_size, b_pos, b_size),
{
    let a_min_x = a_pos.x - a_size.x / 2;
    let a_max_x = a_pos.x + a_size.x / 2;
    let a_min_y = a_pos.y - a_size.y / 2;
    let a_max_y = a_pos.y + a_size.y / 2;
    let b_min_x = b_pos.x - b_size.x / 2;
    let b_max_x = b_pos.x + b_size.x / 2;
    let b_min_y = b_pos.y - b_size.y / 2;
    let b_max_y = b_pos.y + b_size.y / 2;
    if a_min_x < b_max_x && a_max_x > b_min_x && a_min_y < b_max_y && a_max_y > b_min_y {
        let x_left = a_min_x < b_min_x && a_max_x < b_max_x;
        let x_right = a_min_x > b_min_x && a_max_x > b_max_x;
        let y_bottom = a_min_y < b_min_y && a_max_y < b_max_y;
        let y_top = a_min_y > b_min_y && a_max_y > b_max_y;
        let x_pen = if x_left {
            a_max_x - b_min_x
        } else {
            b_max_x - a_min_x
        };
        let y_pen = if y_bottom {
            a_max_y - b_min_y
        } else {
            b_max_y - a_min_y
        };
        if (y_bottom || y_top) && (!(x_left || x_right) || y_pen < x_pen) {
            if y_bottom {
                Some(Collision::Bottom)
            } else {
                Some(Collision::Top)
            }
        } else if x_left || x_right {
            if x_left {
                Some(Collision::Left)
            } else {
                Some(Collision::Right)
            }
        } else {
            Some(Collision::Inside)
        }
    } else {
        None
    }
}

} // verus!
