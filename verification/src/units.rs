//! The fixed-point unit system of the simulation and its design constants.
//!
//! One world unit is the side of a hundredth of a tile: every length, speed
//! and position in the library counts hundredths of a world unit, so a tile
//! (32 units) is stored as 3200 and the base speed limit of 5.8 units per
//! frame as 580.  Coordinates saturate at `COORD_LIMIT`, far beyond anything
//! a session can reach, which keeps every per-frame rule total.

use vstd::prelude::*;

verus! {

/// Side of one square tile (32 units).
pub const TILE_SIZE: i64 = 3200;

/// Margin used by the predictive vertical collision check (3 units).
pub const COLLISION_TOLERANCE: i64 = 300;

/// Minimum rectangle dimension counted as a genuine overlap (0.1 units).
pub const RECT_TOLERANCE: i64 = 10;

/// Base cap on the horizontal speed (5.8 units per frame).
pub const MAX_SPEED: i64 = 580;

/// Cap on the horizontal speed while a boost window runs (1.5 times the base).
pub const BOOSTED_MAX_SPEED: i64 = 870;

/// Upward speed given by a jump (7 units per frame).
pub const UP_SPEED: i64 = 700;

/// Lower clamp on the vertical speed (-15 units per frame).
pub const MAX_FALL_SPEED: i64 = -1500;

/// Horizontal acceleration per frame of held input (1.1 units per frame).
pub const ACCELERATION: i64 = 110;

/// Linear horizontal deceleration per frame without input, and the gravity
/// step (one fifth of the acceleration, 0.22 units per frame).
pub const DECELERATION: i64 = 22;

/// Dimensionless multiplier on the acceleration while reversing direction.
pub const CHANGE_DIRECTION_SPEED: i64 = 3;

/// Number of frames a speed boost lasts (six seconds at 60 frames per second).
pub const MAX_SPEEDUP_COUNT: i64 = 360;

/// Screen width (480 units).
pub const SCREEN_WIDTH: i64 = 48000;

/// Screen height (320 units).
pub const SCREEN_HEIGHT: i64 = 32000;

/// Per-frame increment of the cosmetic animation phase (0.07 radians).
pub const ALPHA_STEP: i64 = 7;

/// Wrap point of the animation phase: half a turn (3.14 radians).
pub const HALF_TURN: i64 = 314;

/// Factor on the rolling rotation per unit of horizontal speed (0.55).
pub const ROTATION_FACTOR: i64 = 55;

/// Saturation bound on every coordinate, rotation and background offset.
pub const COORD_LIMIT: i64 = 1_000_000_000_000;

/// Upper bound on the tile count of a platform along either axis.
pub const SEGMENTS_LIMIT: i64 = 100_000;

/// Columns of background tiles drawn: the screen width in tiles plus three,
/// enough to cover any scroll position.
pub const BACKGROUND_COLUMNS: i64 = 18;

/// Rows of background tiles drawn: the screen height in tiles plus two,
/// enough to cover any scroll position.
pub const BACKGROUND_ROWS: i64 = 12;

/// Whether `v` lies within the saturation bound of coordinates.
pub open spec fn in_coord_range(v: int) -> bool {
    -(COORD_LIMIT as int) <= v <= COORD_LIMIT as int
}

/// A coordinate moved by `d`, saturating at the coordinate bound.
pub open spec fn spec_shift(c: int, d: int) -> int {
    if c + d > COORD_LIMIT as int {
        COORD_LIMIT as int
    } else if c + d < -(COORD_LIMIT as int) {
        -(COORD_LIMIT as int)
    } else {
        c + d
    }
}

/// Division truncating toward zero, as the simulation applies it to
/// possibly negative offsets; the divisor is positive.
pub open spec fn trunc_div(a: int, b: int) -> int
    recommends
        b > 0,
{
    if a >= 0 {
        a / b
    } else {
        -((-a) / b)
    }
}

/// Remainder with the sign of the dividend, the companion of `trunc_div`.
pub open spec fn trunc_rem(a: int, b: int) -> int
    recommends
        b > 0,
{
    if a >= 0 {
        a % b
    } else {
        -((-a) % b)
    }
}

/// Moves a coordinate by an offset, saturating at the coordinate bound.
pub fn shift_saturating(c: i64, d: i64) -> (r: i64)
    requires
        in_coord_range(c as int),
        in_coord_range(d as int),
    ensures
        r as int == spec_shift(c as int, d as int),
        in_coord_range(r as int),
{
    let s = c + d;
    if s > COORD_LIMIT {
        COORD_LIMIT
    } else if s < -COORD_LIMIT {
        -COORD_LIMIT
    } else {
        s
    }
}

} // verus!
