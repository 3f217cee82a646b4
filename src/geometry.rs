//! Fixed-point points, velocities and the game's dimensions.
use vstd::prelude::*;

verus! {

/// Length units in one pixel.
pub const UNITS_PER_PIXEL: i64 = 1_000_000;

/// Gap between a screen edge and the paddle next to it.
pub const PADDING: i64 = 20_000_000;
pub const RACKET_HEIGHT: i64 = 100_000_000;
pub const RACKET_WIDTH: i64 = 20_000_000;
pub const RACKET_HEIGHT_HALF: i64 = 50_000_000;
pub const RACKET_WIDTH_HALF: i64 = 10_000_000;
pub const BALL_SIZE: i64 = 30_000_000;
pub const BALL_SIZE_HALF: i64 = 15_000_000;
/// Paddle speed in pixels per second (length units per microsecond).
pub const PLAYER_SPEED: i64 = 500;
/// Ball speed on each axis, in pixels per second.
pub const BALL_SPEED: i64 = 500;

/// Largest screen width or height accepted, in length units.
pub const MAX_EXTENT: i64 = 1_000_000_000_000_000;
/// Longest tick accepted, in microseconds.
pub const MAX_DT: i64 = 1_000_000_000;
/// Bound on the absolute value of every coordinate the game holds.
pub const MAX_COORD: i64 = 4_000_000_000_000_000;

/// A position on the screen; y grows downwards.
#[derive(Clone, Copy, Debug, PartialEq, Eq, Structural)]
pub struct Point {
    pub x: i64,
    pub y: i64,
}

/// A velocity, in length units per microsecond on each axis.
#[derive(Clone, Copy, Debug, PartialEq, Eq, Structural)]
pub struct Velocity {
    pub x: i64,
    pub y: i64,
}

pub open spec fn in_coord_range(v: int) -> bool {
    -MAX_COORD <= v <= MAX_COORD
}

pub open spec fn abs(v: int) -> int {
    if v < 0 { -v } else { v }
}

impl Point {
    pub open spec fn wf(&self) -> bool {
        in_coord_range(self.x as int) && in_coord_range(self.y as int)
    }

    /// Whether both coordinates are within `MAX_COORD` of zero.
    pub fn is_in_range(&self) -> (r: bool)
        ensures
            r == self.wf(),
    {
        -MAX_COORD <= self.x && self.x <= MAX_COORD && -MAX_COORD <= self.y && self.y <= MAX_COORD
    }
}

impl Velocity {
    /// Neither component is faster than the ball's speed.
    pub open spec fn wf(&self) -> bool {
        abs(self.x as int) <= BALL_SPEED && abs(self.y as int) <= BALL_SPEED
    }

    /// Whether neither component is faster than the ball's speed.
    pub fn is_within_speed(&self) -> (r: bool)
        ensures
            r == self.wf(),
    {
        -BALL_SPEED <= self.x && self.x <= BALL_SPEED && -BALL_SPEED <= self.y && self.y
            <= BALL_SPEED
    }

    /// Both components have exactly the ball's speed; only their signs vary.
    pub open spec fn at_ball_speed(&self) -> bool {
        abs(self.x as int) == BALL_SPEED && abs(self.y as int) == BALL_SPEED
    }
}

/// `v` brought into `[low, high]`: below `low` it becomes `low`, otherwise
/// above `high` it becomes `high`.
pub open spec fn clamped(v: int, low: int, high: int) -> int {
    if v < low {
        low
    } else if v > high {
        high
    } else {
        v
    }
}

/// Brings `*value` into `[low, high]`. When `low > high` a value below `low`
/// becomes `low` and any other value becomes `high`.
pub fn clamp(value: &mut i64, low: i64, high: i64)
    ensures
        *final(value) == clamped(*old(value) as int, low as int, high as int),
        low <= high ==> low <= *final(value) <= high,
{
    if *value < low {
        *value = low;
    } else if *value > high {
        *value = high;
    }
}

} // verus!
