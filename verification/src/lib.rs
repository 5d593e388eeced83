//! Deterministic core of a small 2D thrust-and-land racing game.
//!
//! A ship is steered around a level of axis-aligned walls, must touch a
//! sequence of goals in order and then return to the launch pad, racing
//! against a "ghost" replay of the best prior run.  Everything here is the
//! part of the game that must be bit-for-bit reproducible: the fixed-tick
//! ship integrator with collision resolution, the run/score state machine,
//! the ghost recorder/replayer and the highscore bookkeeping.
//!
//! All physics runs on fixed-point coordinates (thousandths of a world
//! unit), so a replay of a recorded thrust history reproduces a run
//! exactly, on every machine.

pub mod geom;
pub mod ship;
pub mod wall;
pub mod collision;
pub mod sim;
pub mod level;
pub mod events;
pub mod highscore;
pub mod resources;
pub mod game_status;
pub mod loader;
