//! Tuning constants and machine limits of the simulation.
//!
//! World lengths are measured in thousandths of a world unit ("milliunits"),
//! speeds in milliunits per second, and time in milliseconds.

use vstd::prelude::*;

verus! {

/// Milliseconds in one second; velocities are given per second while elapsed
/// time arrives in milliseconds.
pub const MILLIS_PER_SECOND: u64 = 1_000;

/// Largest elapsed time a single simulation step accepts, in milliseconds.
/// A frame longer than a second is clamped away by the caller.
pub const DT_LIMIT_MS: u64 = 1_000;

/// Downward acceleration applied to every physics entity, in milliunits per
/// second per second (negative: downward).
pub const GRAVITY: i64 = -980_000;

/// Terminal fall speed, in milliunits per second (negative: downward).
/// Gravity never pushes `velocity.y` below this value.
pub const MAX_FALL_SPEED: i64 = -600_000;

/// Upward velocity set on a jump trigger, in milliunits per second.
pub const JUMP_FORCE: i64 = 450_000;

/// Horizontal speed while a move key is held, in milliunits per second.
pub const PLAYER_SPEED: i64 = 200_000;

/// Horizontal speed above which the animation state is `Walking`, in
/// milliunits per second (one tenth of a world unit per second).
pub const WALK_ANIMATION_THRESHOLD: i64 = 100;

/// Interval of the repeating sprite-frame timer, in milliseconds.
pub const ANIMATION_FRAME_TIME_MS: u64 = 100;

/// Largest magnitude a velocity component may have, in milliunits per
/// second. Keeps one integration step far away from `i64` overflow.
pub const SPEED_LIMIT: i64 = 1_000_000_000_000;

/// Largest value a half-extent component may have, in milliunits.
pub const EXTENT_LIMIT: i64 = 1_000_000_000_000;

/// Largest magnitude a well-formed world allows a position component, in
/// milliunits.
pub const WORLD_LIMIT: i64 = 1_000_000_000_000_000;

/// Largest position magnitude the collision resolver accepts: roomy enough
/// for a world-limit position moved by one integration step.
pub const RESOLVE_POS_LIMIT: i64 = WORLD_LIMIT + 8_000_000_000_000;

/// Largest interval the repeating animation timer may be built with, in
/// milliseconds (one day).
pub const TIMER_INTERVAL_LIMIT_MS: u64 = 86_400_000;

} // verus!
