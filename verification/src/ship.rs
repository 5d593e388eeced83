//! The ship: its bounding box, velocity and the per-tick integrator
//! constants.
//!
//! One tick applies thrust and damping to the velocity, gravity and the
//! velocity to the position, and then resolves collisions against the
//! level's walls (see [`crate::collision`]).

use vstd::prelude::*;
use crate::geom::Vec2;

verus! {

/// Side length of the ship's square bounding box (0.1 world units).
pub const SHIP_SIZE: i64 = 100;

/// Half of [`SHIP_SIZE`].
pub const SHIP_RADIUS: i64 = 50;

/// Thrust acceleration per tick along x (0.01 world units).
pub const THRUST_POWER_X: i64 = 10;

/// Thrust acceleration per tick along y (0.013 world units).
pub const THRUST_POWER_Y: i64 = 13;

/// Gravity displacement per tick along y (-0.01 world units).
pub const GRAVITY_Y: i64 = -10;

/// A per-tick velocity never leaves `[-VEL_LIMIT, VEL_LIMIT]` on either
/// axis: damping shrinks `|v| + 13` back below this fixed point.
pub const VEL_LIMIT: i64 = 117;

/// The ship's per-tick displacement never exceeds this on either axis
/// (`VEL_LIMIT` plus gravity).
pub const STEP_LIMIT: i64 = 127;

/// Velocity in thousandths of a world unit per tick.
#[derive(Clone, Copy, Debug, PartialEq, Eq, Structural)]
pub struct Velocity(pub Vec2);

/// The live ship: its position and velocity, mutated once per tick by
/// the integrator.
#[derive(Clone, Copy, Debug, PartialEq, Eq, Structural)]
pub struct ShipState {
    pub velocity: Velocity,
    pub position: crate::geom::Vec3,
}

/// Velocity damping: multiply by 9/10, rounding the magnitude down
/// (matching `i64` division truncating toward zero).
pub open spec fn damp(v: int) -> int {
    if v >= 0 {
        (9 * v) / 10
    } else {
        -((9 * -v) / 10)
    }
}

/// New x-velocity produced by one tick of thrust `tx` on velocity `vx`.
pub open spec fn stepped_vel_x(tx: int, vx: int) -> int {
    damp(tx * THRUST_POWER_X + vx)
}

/// New y-velocity produced by one tick of thrust `ty` on velocity `vy`.
pub open spec fn stepped_vel_y(ty: int, vy: int) -> int {
    damp(ty * THRUST_POWER_Y + vy)
}

/// A thrust input is a unit step on each axis.
pub open spec fn is_thrust(t: Vec2) -> bool {
    -1 <= t.x <= 1 && -1 <= t.y <= 1
}

impl Velocity {
    pub open spec fn in_limits(self) -> bool {
        -VEL_LIMIT <= self.0.x <= VEL_LIMIT && -VEL_LIMIT <= self.0.y <= VEL_LIMIT
    }
}

/// The ship's square bounding box, as a full size.
pub fn ship_size() -> (s: Vec2)
    ensures
        s.x == SHIP_SIZE && s.y == SHIP_SIZE,
{
    Vec2 { x: SHIP_SIZE, y: SHIP_SIZE }
}

/// Damping bounds: the damped value keeps the sign of `v` and its
/// magnitude never grows.
pub proof fn lemma_damp_bounds(v: int)
    ensures
        v >= 0 ==> 0 <= damp(v) <= v,
        v < 0 ==> v <= damp(v) <= 0,
{
    if v >= 0 {
        assert(0 <= (9 * v) / 10 <= v) by (nonlinear_arith)
            requires v >= 0;
    } else {
        assert(0 <= (9 * -v) / 10 <= -v) by (nonlinear_arith)
            requires v < 0;
    }
}

fn damp_exec(v: i64) -> (r: i64)
    requires
        -1000 <= v <= 1000,
    ensures
        r == damp(v as int),
{
    if v >= 0 {
        (v * 9) / 10
    } else {
        -((-v * 9) / 10)
    }
}

/// Apply one tick of thrust and damping to a velocity, before collision
/// resolution.
pub fn step_velocity(thrust: Vec2, velocity: Velocity) -> (r: Velocity)
    requires
        is_thrust(thrust),
        velocity.in_limits(),
    ensures
        r.0.x == stepped_vel_x(thrust.x as int, velocity.0.x as int),
        r.0.y == stepped_vel_y(thrust.y as int, velocity.0.y as int),
        r.in_limits(),
{
    let vx = damp_exec(thrust.x * THRUST_POWER_X + velocity.0.x);
    let vy = damp_exec(thrust.y * THRUST_POWER_Y + velocity.0.y);
    proof {
        lemma_damp_bounds(thrust.x * THRUST_POWER_X + velocity.0.x);
        lemma_damp_bounds(thrust.y * THRUST_POWER_Y + velocity.0.y);
    }
    Velocity(Vec2 { x: vx, y: vy })
}

} // verus!
