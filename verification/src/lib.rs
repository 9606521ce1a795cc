//! Deterministic fixed-timestep simulation core for a small arcade
//! shoot'em-up: integer 2D geometry, an arena entity store, formation and
//! boundary layout, movement integration, weapon firing rules, and
//! axis-aligned collision resolution with score and lives bookkeeping.
#![verifier::loop_isolation(false)]

use vstd::prelude::*;

pub mod collision;
pub mod config;
pub mod geom;
pub mod laws;
pub mod layout;
pub mod motion;
pub mod store;
pub mod weapons;
pub mod world;

verus! {

/// Largest half-extent a rectangle may have along either axis.
pub const SIZE_LIMIT: i64 = 0x10_0000;

/// Largest magnitude a velocity component may have (world units per second).
pub const SPEED_LIMIT: i64 = 0x10_0000;

/// Largest timestep a single tick may advance.
pub const DT_LIMIT: i64 = 0x400;

/// Bound on coordinate magnitudes that every per-tick system accepts.
pub const STAGE_POS_LIMIT: i64 = 0x2000_0000_0000;

/// Bound on coordinate magnitudes at the start of a whole tick; it leaves
/// room for one integration step and one projectile spawn below
/// `STAGE_POS_LIMIT`.
pub const TICK_POS_LIMIT: i64 = 0x1000_0000_0000;

/// Bound on the magnitude of every configured coordinate, gap and count.
pub const LAYOUT_LIMIT: i64 = 0x8_0000;

} // verus!
