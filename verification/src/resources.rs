//! The run context: everything a run mutates, owned by the tick loop and
//! passed by exclusive reference into each tick function.

use vstd::prelude::*;
use crate::geom::{Vec2, Vec3, COORD_LIMIT};
use crate::game_status::GameStatus;
use crate::highscore::HighscoreTable;
use crate::ship::is_thrust;
use crate::sim::{history_ok, MAX_TICKS};

verus! {

/// The best prior run of the current level: its score, its frame count
/// and its full pre-computed trajectory, one position per tick.
/// Immutable once computed; replaced wholesale, never mutated in place.
#[derive(Clone, Debug)]
pub struct GhostRun {
    pub score: usize,
    pub frame_count: usize,
    pub positions: Vec<Vec3>,
}

impl GhostRun {
    /// The trajectory holds exactly one position per counted tick.
    pub open spec fn wf(self) -> bool {
        self.positions@.len() == self.frame_count
    }
}

/// All mutable state of one run.
pub struct GameResources {
    /// Current state of the run's state machine.
    pub status: GameStatus,
    /// The thrust input of the current tick.
    pub thrust: Vec2,
    /// Ticks since liftoff.
    pub frame_count: usize,
    /// How many goals have been reached, in order.
    pub score: usize,
    /// The level's goals, projected to screen space, in required order.
    pub goals: Vec<Vec2>,
    /// The launch pad's box in screen space: centre and full size.
    pub launch_pad: (Vec3, Vec2),
    /// The thrust of every tick since liftoff, in order.
    pub thrust_history: Vec<Vec2>,
    /// The best prior run's replay, if any.
    pub best_ghost: Option<GhostRun>,
    /// Index of the level being played.
    pub current_level: usize,
    /// Per-level best frame counts.
    pub highscores: HighscoreTable,
    /// Whether this run beat a previously recorded best.
    pub made_highscore: bool,
}

impl GameResources {
    /// The run invariant: every tick function preserves it.
    ///
    /// In particular the score never exceeds the number of goals, the
    /// thrust history holds exactly one entry per counted tick, and
    /// before liftoff both are empty (idle ticks are not recorded).
    pub open spec fn wf(self) -> bool {
        &&& is_thrust(self.thrust)
        &&& self.score <= self.goals@.len()
        &&& self.frame_count == self.thrust_history@.len()
        &&& self.frame_count <= MAX_TICKS
        &&& history_ok(self.thrust_history@)
        &&& forall|i: int| 0 <= i < self.goals@.len() ==> (#[trigger] self.goals@[i]).in_bounds()
        &&& -COORD_LIMIT <= self.launch_pad.0.x <= COORD_LIMIT
        &&& -COORD_LIMIT <= self.launch_pad.0.y <= COORD_LIMIT
        &&& -COORD_LIMIT <= self.launch_pad.0.z <= COORD_LIMIT
        &&& 0 <= self.launch_pad.1.x <= 2 * COORD_LIMIT
        &&& 0 <= self.launch_pad.1.y <= 2 * COORD_LIMIT
        &&& (self.status == GameStatus::Waiting || self.status == GameStatus::Spawning
            || self.status == GameStatus::Idling) ==> self.frame_count == 0
        &&& (self.best_ghost matches Some(g) ==> g.wf())
    }

    /// What the highscore comparison uses as "the previous best" for a
    /// level: the stored best, or the worst representable frame count
    /// when the level has never been completed.
    pub open spec fn spec_prev_score(self, level: usize) -> usize {
        match self.highscores.spec_get(level) {
            Some(v) => v,
            None => usize::MAX,
        }
    }

    /// The previous best frame count for `level`, to beat strictly.
    pub fn prev_score(&self, level: usize) -> (r: usize)
        ensures
            r == self.spec_prev_score(level),
    {
        match self.highscores.get(level) {
            Some(v) => v,
            None => usize::MAX,
        }
    }

    /// Elapsed flight time in whole milliseconds (the tick rate is 60
    /// per second).
    pub fn elapsed_millis(&self) -> (r: u64)
        requires
            self.frame_count <= MAX_TICKS,
        ensures
            r == self.frame_count * 1000 / 60,
    {
        (self.frame_count as u64) * 1000 / 60
    }
}

impl Default for GameResources {
    /// A fresh context: waiting, at rest, nothing recorded.
    fn default() -> (r: GameResources)
        ensures
            r.status == GameStatus::Waiting,
            r.thrust.x == 0 && r.thrust.y == 0,
            r.frame_count == 0,
            r.score == 0,
            r.goals@.len() == 0,
            r.thrust_history@.len() == 0,
            r.best_ghost is None,
            r.current_level == 0,
            forall|level: usize| r.highscores.spec_get(level) is None,
            !r.made_highscore,
            r.wf(),
    {
        GameResources {
            status: GameStatus::Waiting,
            thrust: Vec2 { x: 0, y: 0 },
            frame_count: 0,
            score: 0,
            goals: Vec::new(),
            launch_pad: (Vec3 { x: 0, y: 0, z: 0 }, Vec2 { x: 0, y: 0 }),
            thrust_history: Vec::new(),
            best_ghost: None,
            current_level: 0,
            highscores: HighscoreTable::new(),
            made_highscore: false,
        }
    }
}

} // verus!
