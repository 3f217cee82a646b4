//! A two-paddle ball game: the per-tick physics, collision and scoring rules.
//!
//! Lengths are fixed-point integers in micro-pixels, times are in
//! microseconds, and speeds are in pixels per second, which is the same as
//! micro-pixels per microsecond: a speed times a duration is a length.
use vstd::prelude::*;

pub mod geometry;
pub mod physics;
mod random;
pub mod state;
