//! Dimensions and speeds of the court, in tenths of a pixel.
use vstd::prelude::*;

verus! {

/// Length units in one pixel.
pub const UNITS_PER_PIXEL: i64 = 10;

/// Width of the court.
pub const WIDTH: i64 = 8000;

/// Height of the court.
pub const HEIGHT: i64 = 4000;

/// Height of each paddle.
pub const PADDLE_HEIGHT: i64 = 800;

/// Width of each paddle.
pub const PADDLE_WIDTH: i64 = 100;

/// Side of the ball's square bounding box.
pub const BALL_SIZE: i64 = 100;

/// Distance a paddle moves in one tick; below `BALL_SPEED`, so a paddle can
/// always be outrun.
pub const PADDLE_SPEED: i64 = 9;

/// Distance the ball moves along each axis in one tick at the start.
pub const BALL_SPEED: i64 = 10;

/// Largest distance along one axis that a ball may travel in one tick.
pub const MAX_BALL_SPEED: i64 = 10000;

/// Lowest top edge of a paddle that stays inside the court.
pub const PADDLE_MAX_Y: i64 = HEIGHT - PADDLE_HEIGHT;

/// Lowest top edge of a ball that does not touch the bottom wall.
pub const BALL_MAX_Y: i64 = HEIGHT - BALL_SIZE;

/// Left edge of a ball at the centre of the court: half of `WIDTH`.
pub const CENTER_X: i64 = 4000;

/// Top edge of a ball at the centre of the court: half of `HEIGHT`.
pub const CENTER_Y: i64 = 2000;

/// Top edge of a paddle centred vertically: half of `PADDLE_MAX_Y`.
pub const PADDLE_START_Y: i64 = 1600;

/// `v` limited to the interval `[lo, hi]`.
pub open spec fn clamp(v: int, lo: int, hi: int) -> int {
    if v < lo {
        lo
    } else if v > hi {
        hi
    } else {
        v
    }
}

/// Limits a paddle's top edge to the court.
pub fn clamp_paddle(y: i64) -> (r: i64)
    ensures
        r == clamp(y as int, 0, PADDLE_MAX_Y as int),
{
    if y < 0 {
        0
    } else if y > PADDLE_MAX_Y {
        PADDLE_MAX_Y
    } else {
        y
    }
}

} // verus!
