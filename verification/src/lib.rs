//! An ant-colony foraging simulation with a verified core.
//!
//! Autonomous ants search a bounded 2D world for food, lay decaying
//! pheromone markers, follow the trails those markers form, and carry
//! collected food back to their home colony. All world state lives in
//! plain arenas indexed by integers, all geometry is integer
//! fixed-point (milli-units for positions, millidegrees for headings,
//! per-mille for marker intensity), and the whole per-tick update is
//! an explicit function of the previous state plus a deterministic
//! random-number stream.

use vstd::prelude::*;

pub mod geometry;
pub mod rng;
pub mod stimulant;
pub mod sensor;
pub mod ant;
pub mod colony;
pub mod world;

verus! {

/// Upper bound on one tick's elapsed time, in milliseconds: a
/// driving loop hands the simulation at most one second per step.
pub const MAX_TICK_MS: u64 = 1_000;

} // verus!
