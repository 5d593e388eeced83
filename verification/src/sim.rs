//! The deterministic ship integrator and the ghost replay built on it.
//!
//! One tick is: damp the thrusted velocity, add gravity and the velocity
//! to the position, then walk the walls in registration order and apply
//! one single-axis correction per overlapping wall (a later wall may
//! override an earlier correction; this last-write-wins ordering is part
//! of the game's recorded behaviour and must not be "fixed").
//!
//! [`simulate_ship`] is the only integrator: the live ship and the ghost
//! replay both step through it, which is what makes a replay of a thrust
//! history bit-identical to the run that recorded it.

use vstd::prelude::*;
use crate::geom::{Vec2, Vec3};
use crate::ship::{
    Velocity, ship_size, step_velocity, stepped_vel_x, stepped_vel_y, is_thrust, GRAVITY_Y,
    SHIP_RADIUS, STEP_LIMIT, VEL_LIMIT,
};
use crate::wall::{WallPosition, walls_wf};
use crate::collision::{collide, spec_collide, Collision, SIM_LIMIT};

verus! {

/// A run is capped at this many ticks (over 19 days of fixed-rate play),
/// which keeps every position the simulation can reach inside
/// [`SIM_LIMIT`].
pub const MAX_TICKS: usize = 100_000_000;

/// A corrected position is clamped to a wall edge, so it lands within
/// this bound.
pub const CLAMP_LIMIT: i64 = 2_000_050;

/// The integrator state the specification reasons over: velocity and
/// position, as unbounded integers.
pub ghost struct SimState {
    pub vx: int,
    pub vy: int,
    pub px: int,
    pub py: int,
    pub pz: int,
}

/// The state a concrete velocity/position pair stands for.
pub open spec fn sim_state(v: Velocity, p: Vec3) -> SimState {
    SimState { vx: v.0.x as int, vy: v.0.y as int, px: p.x as int, py: p.y as int, pz: p.z as int }
}

/// One tick before collision resolution: damped thrusted velocity, then
/// gravity and velocity added to the position.
pub open spec fn free_step(t: Vec2, s: SimState) -> SimState {
    let vx = stepped_vel_x(t.x as int, s.vx);
    let vy = stepped_vel_y(t.y as int, s.vy);
    SimState { vx, vy, px: s.px + vx, py: s.py + GRAVITY_Y + vy, pz: s.pz }
}

/// The collision class of the ship's box at state `s` against wall `w`
/// (the integer-state counterpart of [`spec_collide`]).
pub open spec fn ship_collide(s: SimState, w: WallPosition) -> Option<Collision> {
    let a_min_x = s.px - SHIP_RADIUS;
    let a_max_x = s.px + SHIP_RADIUS;
    let a_min_y = s.py - SHIP_RADIUS;
    let a_max_y = s.py + SHIP_RADIUS;
    let b_min_x = w.spec_left();
    let b_max_x = w.spec_right();
    let b_min_y = w.spec_bottom();
    let b_max_y = w.spec_top();
    if a_min_x < b_max_x && a_max_x > b_min_x && a_min_y < b_max_y && a_max_y > b_min_y {
        let x_left = a_min_x < b_min_x && a_max_x < b_max_x;
        let x_right = a_min_x > b_min_x && a_max_x > b_max_x;
        let y_bottom = a_min_y < b_min_y && a_max_y < b_max_y;
        let y_top = a_min_y > b_min_y && a_max_y > b_max_y;
        let x_pen = if x_left {
            a_max_x - b_min_x
        } else {
            b_max_x - a_min_x
        };
        let y_pen = if y_bottom {
            a_max_y - b_min_y
        } else {
            b_max_y - a_min_y
        };
        if (y_bottom || y_top) && (!(x_left || x_right) || y_pen < x_pen) {
            if y_bottom {
                Some(Collision::Bottom)
            } else {
                Some(Collision::Top)
            }
        } else if x_left || x_right {
            if x_left {
                Some(Collision::Left)
            } else {
                Some(Collision::Right)
            }
        } else {
            Some(Collision::Inside)
        }
    } else {
        None
    }
}

/// The single-axis correction one wall applies: zero the velocity along
/// the reported axis and clamp the position flush to the wall's edge.
/// Corner/containment reports (`Inside`) and non-overlaps change nothing.
pub open spec fn apply_wall(s: SimState, w: WallPosition) -> SimState {
    match ship_collide(s, w) {
        Some(Collision::Left) => SimState {
            vx: 0,
            px: w.spec_left() - SHIP_RADIUS,
            vy: s.vy,
            py: s.py,
            pz: s.pz,
        },
        Some(Collision::Right) => SimState {
            vx: 0,
            px: w.spec_right() + SHIP_RADIUS,
            vy: s.vy,
            py: s.py,
            pz: s.pz,
        },
        Some(Collision::Top) => SimState {
            vy: 0,
            py: w.spec_top() + SHIP_RADIUS,
            vx: s.vx,
            px: s.px,
            pz: s.pz,
        },
        Some(Collision::Bottom) => SimState {
            vy: 0,
            py: w.spec_bottom() - SHIP_RADIUS,
            vx: s.vx,
            px: s.px,
            pz: s.pz,
        },
        _ => s,
    }
}

/// State after the first `n` walls have applied their corrections, in
/// order.
pub open spec fn resolved(s: SimState, walls: Seq<WallPosition>, n: int) -> SimState
    decreases n,
{
    if n <= 0 {
        s
    } else {
        apply_wall(resolved(s, walls, n - 1), walls[n - 1])
    }
}

/// One full integrator tick: free step, then every wall's correction.
pub open spec fn sim_step(t: Vec2, s: SimState, walls: Seq<WallPosition>) -> SimState {
    resolved(free_step(t, s), walls, walls.len() as int)
}

/// Magnitude bound for one tick from a position coordinate `c`: the ship
/// either drifts by at most [`STEP_LIMIT`] or is clamped to a wall edge.
pub open spec fn step_bound(c: int) -> int {
    let m = if c >= 0 {
        c
    } else {
        -c
    };
    if m + STEP_LIMIT >= CLAMP_LIMIT {
        m + STEP_LIMIT
    } else {
        CLAMP_LIMIT as int
    }
}

/// Velocity components of a state stay inside [`VEL_LIMIT`].
pub open spec fn vel_ok(s: SimState) -> bool {
    -VEL_LIMIT <= s.vx <= VEL_LIMIT && -VEL_LIMIT <= s.vy <= VEL_LIMIT
}

/// One deterministic physics tick for the ship: new velocity and
/// position from the current thrust, velocity, position and walls.
///
/// This is invoked identically for the live ship and for every step of a
/// ghost reconstruction; its result is a pure function of its arguments.
pub fn simulate_ship(
    current_thrust: &Vec2,
    velocity: &Velocity,
    pos: Vec3,
    walls: &Vec<WallPosition>,
) -> (r: (Velocity, Vec3))
    requires
        is_thrust(*current_thrust),
        velocity.in_limits(),
        walls_wf(walls@),
        -(SIM_LIMIT - STEP_LIMIT) <= pos.x <= SIM_LIMIT - STEP_LIMIT,
        -(SIM_LIMIT - STEP_LIMIT) <= pos.y <= SIM_LIMIT - STEP_LIMIT,
        -SIM_LIMIT <= pos.z <= SIM_LIMIT,
    ensures
        sim_state(r.0, r.1) == sim_step(*current_thrust, sim_state(*velocity, pos), walls@),
        r.0.in_limits(),
        r.1.z == pos.z,
        -step_bound(pos.x as int) <= r.1.x <= step_bound(pos.x as int),
        -step_bound(pos.y as int) <= r.1.y <= step_bound(pos.y as int),
{
    let ghost s0 = free_step(*current_thrust, sim_state(*velocity, pos));
    let mut new_velocity = step_velocity(*current_thrust, *velocity);
    let mut new_pos = Vec3 {
        x: pos.x + new_velocity.0.x,
        y: pos.y + GRAVITY_Y + new_velocity.0.y,
        z: pos.z,
    };
    assert(sim_state(new_velocity, new_pos) == s0);
    let n = walls.len();
    let mut i: usize = 0;
    while i < n
        invariant
            n == walls.len(),
            0 <= i <= n,
            walls_wf(walls@),
            sim_state(new_velocity, new_pos) == resolved(s0, walls@, i as int),
            new_velocity.in_limits(),
            -step_bound(pos.x as int) <= new_pos.x <= step_bound(pos.x as int),
            -step_bound(pos.y as int) <= new_pos.y <= step_bound(pos.y as int),
            step_bound(pos.x as int) <= SIM_LIMIT,
            step_bound(pos.y as int) <= SIM_LIMIT,
            new_pos.z == pos.z,
            -SIM_LIMIT <= pos.z <= SIM_LIMIT,
        decreases n - i,
    {
        let w = walls[i];
        assert(walls@[i as int].wf());
        let ghost cur = resolved(s0, walls@, i as int);
        match collide(new_pos, ship_size(), w.translation, w.size) {
            Some(Collision::Left) => {
                new_velocity.0.x = 0;
                new_pos.x = w.left() - SHIP_RADIUS;
            },
            Some(Collision::Right) => {
                new_velocity.0.x = 0;
                new_pos.x = w.right() + SHIP_RADIUS;
            },
            Some(Collision::Top) => {
                new_velocity.0.y = 0;
                new_pos.y = w.top() + SHIP_RADIUS;
            },
            Some(Collision::Bottom) => {
                new_velocity.0.y = 0;
                new_pos.y = w.bottom() - SHIP_RADIUS;
            },
            _ => {},
        }
        assert(sim_state(new_velocity, new_pos) == apply_wall(cur, walls@[i as int]));
        i = i + 1;
    }
    (new_velocity, new_pos)
}

/// The integrator state after replaying the first `n` entries of a thrust
/// history from rest at `s0`.
pub open spec fn replay(s0: SimState, hist: Seq<Vec2>, walls: Seq<WallPosition>, n: int) -> SimState
    decreases n,
{
    if n <= 0 {
        s0
    } else {
        sim_step(hist[n - 1], replay(s0, hist, walls, n - 1), walls)
    }
}

/// A concrete position equals the position of an integrator state.
pub open spec fn models_pos(p: Vec3, s: SimState) -> bool {
    p.x == s.px && p.y == s.py && p.z == s.pz
}

/// The state the integrator starts a run from: at rest on `initial_pos`.
pub open spec fn start_state(initial_pos: Vec2) -> SimState {
    SimState { vx: 0, vy: 0, px: initial_pos.x as int, py: initial_pos.y as int, pz: 0 }
}

/// Every entry of a recorded thrust history is a unit thrust.
pub open spec fn history_ok(hist: Seq<Vec2>) -> bool {
    forall|i: int| 0 <= i < hist.len() ==> is_thrust(#[trigger] hist[i])
}

/// Recompute a full ghost trajectory by replaying a recorded thrust
/// history through [`simulate_ship`], one position per historical tick,
/// starting at rest from `initial_pos`.
pub fn compute_ghost(
    initial_pos: Vec2,
    thrust_history: &Vec<Vec2>,
    walls: &Vec<WallPosition>,
) -> (trail: Vec<Vec3>)
    requires
        initial_pos.in_bounds(),
        history_ok(thrust_history@),
        thrust_history@.len() <= MAX_TICKS,
        walls_wf(walls@),
    ensures
        trail@.len() == thrust_history@.len(),
        forall|i: int|
            0 <= i < trail@.len() ==> models_pos(
                #[trigger] trail@[i],
                replay(start_state(initial_pos), thrust_history@, walls@, i + 1),
            ),
{
    let mut trail: Vec<Vec3> = Vec::new();
    let mut velocity = Velocity(Vec2 { x: 0, y: 0 });
    let mut pos = initial_pos.extend(0);
    let n = thrust_history.len();
    let ghost s0 = start_state(initial_pos);
    let mut i: usize = 0;
    while i < n
        invariant
            n == thrust_history@.len(),
            0 <= i <= n,
            n <= MAX_TICKS,
            history_ok(thrust_history@),
            walls_wf(walls@),
            trail@.len() == i,
            sim_state(velocity, pos) == replay(s0, thrust_history@, walls@, i as int),
            forall|j: int|
                0 <= j < i ==> models_pos(
                    #[trigger] trail@[j],
                    replay(s0, thrust_history@, walls@, j + 1),
                ),
            velocity.in_limits(),
            -(CLAMP_LIMIT + STEP_LIMIT * i) <= pos.x <= CLAMP_LIMIT + STEP_LIMIT * i,
            -(CLAMP_LIMIT + STEP_LIMIT * i) <= pos.y <= CLAMP_LIMIT + STEP_LIMIT * i,
            pos.z == 0,
        decreases n - i,
    {
        let thrust = thrust_history[i];
        let (v2, p2) = simulate_ship(&thrust, &velocity, pos, walls);
        velocity = v2;
        pos = p2;
        trail.push(pos);
        i = i + 1;
    }
    trail
}

/// Replaying a history reconstructs the run that recorded it: a chain of
/// states linked tick by tick through the integrator equals the replay of
/// its inputs from the same start.  With [`compute_ghost`]'s contract this
/// says the ghost trajectory is exactly the live trajectory it recorded.
pub proof fn lemma_replay_reconstructs_run(
    s0: SimState,
    states: Seq<SimState>,
    hist: Seq<Vec2>,
    walls: Seq<WallPosition>,
    k: int,
)
    requires
        states.len() == hist.len() + 1,
        states[0] == s0,
        forall|i: int|
            0 <= i < hist.len() ==> states[i + 1] == sim_step(hist[i], #[trigger] states[i], walls),
        0 <= k <= hist.len(),
    ensures
        replay(s0, hist, walls, k) == states[k],
    decreases k,
{
    if k > 0 {
        lemma_replay_reconstructs_run(s0, states, hist, walls, k - 1);
    }
}

/// Replays are deterministic: any two trajectories that satisfy
/// [`compute_ghost`]'s contract for the same start, history and walls are
/// bit-for-bit identical.
pub proof fn lemma_replay_trail_unique(
    s0: SimState,
    hist: Seq<Vec2>,
    walls: Seq<WallPosition>,
    t1: Seq<Vec3>,
    t2: Seq<Vec3>,
)
    requires
        t1.len() == hist.len(),
        t2.len() == hist.len(),
        forall|i: int| 0 <= i < t1.len() ==> models_pos(#[trigger] t1[i], replay(s0, hist, walls, i + 1)),
        forall|i: int| 0 <= i < t2.len() ==> models_pos(#[trigger] t2[i], replay(s0, hist, walls, i + 1)),
    ensures
        t1 == t2,
{
    assert forall|i: int| 0 <= i < t1.len() implies t1[i] == t2[i] by {
        assert(models_pos(t1[i], replay(s0, hist, walls, i + 1)));
        assert(models_pos(t2[i], replay(s0, hist, walls, i + 1)));
    }
    assert(t1 =~= t2);
}

/// The ship's box at state `s` overlaps wall `w` along the x axis.
pub open spec fn x_overlaps(s: SimState, w: WallPosition) -> bool {
    s.px - SHIP_RADIUS < w.spec_right() && s.px + SHIP_RADIUS > w.spec_left()
}

/// The ship's box at state `s` overlaps wall `w` along the y axis.
pub open spec fn y_overlaps(s: SimState, w: WallPosition) -> bool {
    s.py - SHIP_RADIUS < w.spec_top() && s.py + SHIP_RADIUS > w.spec_bottom()
}

/// Collision containment: when a wall reports a side, the corrected state
/// no longer overlaps that wall along the resolved axis, and the velocity
/// component along that axis is exactly zero.
pub proof fn lemma_collision_containment(s: SimState, w: WallPosition)
    requires
        w.wf(),
    ensures
        ship_collide(s, w) == Some(Collision::Left) || ship_collide(s, w) == Some(Collision::Right)
            ==> apply_wall(s, w).vx == 0 && !x_overlaps(apply_wall(s, w), w),
        ship_collide(s, w) == Some(Collision::Top) || ship_collide(s, w) == Some(Collision::Bottom)
            ==> apply_wall(s, w).vy == 0 && !y_overlaps(apply_wall(s, w), w),
{
}

} // verus!
