//! The fixed constants of the game, in the fixed-point scales of the crate:
//! positions in micro-units (`SCALE` per world unit), time in centiseconds,
//! velocities in micro-units per centisecond (`VEL_SCALE` per world unit per
//! second).

use vstd::prelude::*;

verus! {

/// Micro-units per world unit: the position scale of the simulation.
pub const SCALE: i64 = 1_000_000;

/// Micro-units per centisecond, for a speed of one world unit per second.
pub const VEL_SCALE: i64 = 10_000;

/// Longest tick the simulation accepts, in centiseconds (1000 seconds).
pub const MAX_TICK_CS: i64 = 100_000;

/// Gravity, in micro-units per centisecond squared: -39.24 units/s^2.
pub const GRAVITY: i64 = -3924;

/// Half the gravity, the coefficient of dt^2 in the position update.
pub const HALF_GRAVITY: i64 = -1962;

/// The floor: -174 world units. The entity's y never ends a tick below it.
pub const FLOOR_Y: i64 = -174_000_000;

/// Half the window height: 256 world units. At or above it the player
/// action no longer applies an upward impulse.
pub const CEILING_Y: i64 = 256_000_000;

/// Saturation bound on the entity's y, far beyond anything the game can
/// reach during play; it only keeps the fixed-point arithmetic in range.
pub const Y_SAT: i64 = 1_000_000_000_000_000;

/// Saturation bound on the magnitude of a downward velocity, far beyond
/// anything reachable during play; it only keeps the arithmetic in range.
pub const VEL_SAT: i64 = 1_000_000_000_000;

/// Impulse velocity for an entity already rising faster than the
/// threshold: 12 units/s.
pub const IMPULSE_FAST: i64 = 120_000;

/// Impulse velocity for a slow or falling entity: 8 units/s.
pub const IMPULSE_SLOW: i64 = 80_000;

/// Velocity threshold between the two impulse responses: 2 units/s.
pub const IMPULSE_THRESHOLD: i64 = 20_000;

/// Half-extents of the entity's 20 x 32 bounding box.
pub const BIRD_HALF_W: i64 = 10_000_000;
pub const BIRD_HALF_H: i64 = 16_000_000;

/// Half-extents of each 48 x 316 obstacle box.
pub const PIPE_HALF_W: i64 = 24_000_000;
pub const PIPE_HALF_H: i64 = 158_000_000;

/// A track whose x has moved to this value or below is recycled ...
pub const RECYCLE_X: i64 = -500_000_000;

/// ... by teleporting it to this x at the right edge.
pub const RESPAWN_X: i64 = 500_000_000;

/// Number of concurrent obstacle tracks.
pub const TRACK_COUNT: usize = 5;

/// Initial x of the first track, and the spacing between tracks:
/// 300, 500, 700, 900, 1100 world units.
pub const FIRST_TRACK_X: i64 = 300_000_000;
pub const TRACK_SPACING: i64 = 200_000_000;

/// Base y of a lower obstacle box: -100 world units.
pub const LOWER_PIPE_BASE_Y: i64 = -100_000_000;

/// The upper box of a track sits this far above the lower one (450 world
/// units), minus the capped score in world units.
pub const PIPE_GAP_OFFSET: i64 = 450_000_000;

/// Randomized recycle offset range, in world units: uniform in [-200, 75).
pub const OFFSET_MIN: i64 = -200;
pub const OFFSET_MAX: i64 = 75;

/// Base scroll speed term, in world units per second.
pub const SPEED_BASE: i64 = 100;

/// The score is capped at 100 wherever it feeds a speed formula.
pub const SCORE_SPEED_CAP: u32 = 100;

/// The score is capped at 99999 for display.
pub const SCORE_DISPLAY_CAP: u32 = 99999;

/// A cosmetic scroll layer wraps back to 0 once its x reaches -288 units.
pub const SCROLL_WRAP_X: i64 = -288_000_000;

/// The score as the speed formulas read it: capped at 100.
pub open spec fn cap100(score: int) -> int {
    if score > 100 {
        100
    } else {
        score
    }
}

/// How far every obstacle track moves left in a tick of `dt` centiseconds,
/// in micro-units: speed 2 * (100 + min(score, 100)) world units per second.
pub open spec fn pipe_shift(dt: int, score: int) -> int {
    2 * (SPEED_BASE + cap100(score)) * VEL_SCALE * dt
}

/// The capped score, as executable code computes it.
pub fn score_speed_term(score: u32) -> (r: u32)
    ensures
        r == cap100(score as int),
{
    if score > SCORE_SPEED_CAP {
        SCORE_SPEED_CAP
    } else {
        score
    }
}

} // verus!
