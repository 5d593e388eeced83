//! Events the core emits for its external collaborators.

use vstd::prelude::*;

verus! {

/// A run finished strictly faster than every previous run of this level:
/// the save collaborator should persist `score` (a frame count) as the
/// level's new best.
#[derive(Clone, Copy, Debug, PartialEq, Eq, Structural)]
pub struct NewHighscore {
    pub level: usize,
    pub score: usize,
}

/// Edge-triggered thruster transition, consumed by the audio collaborator.
#[derive(Clone, Copy, Debug, PartialEq, Eq, Structural)]
pub enum Thruster {
    Stopped,
    Firing,
}

} // verus!
