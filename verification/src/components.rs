//! Gameplay components and the arena's fixed-point coordinate system.
//!
//! All lengths are measured in integer *arena units*: 60 units make one
//! world pixel. Time is counted in integer *ticks* of 1/60 second each, and
//! velocities are stored in units per tick. With that scale a speed given in
//! pixels per second is numerically the same value in units per tick, so one
//! simulation step at the nominal frame time moves an entity by exactly its
//! per-second pixel speed — no rounding anywhere in the core.

use vstd::prelude::*;

verus! {

/// Arena units that make up one world pixel.
pub const UNITS_PER_PIXEL: i64 = 60;

/// Arena width (100 pixels).
pub const ARENA_WIDTH: i64 = 6000;
/// Arena height (100 pixels).
pub const ARENA_HEIGHT: i64 = 6000;

/// Paddle width (4 pixels).
pub const PADDLE_WIDTH: i64 = 240;
/// Paddle height (16 pixels).
pub const PADDLE_HEIGHT: i64 = 960;

/// Ball radius (2 pixels).
pub const BALL_RADIUS: i64 = 120;
/// Horizontal ball speed at spawn, in units per tick (75 pixels per second).
pub const BALL_VELOCITY_X: i64 = 75;
/// Vertical ball speed at spawn, in units per tick (50 pixels per second).
pub const BALL_VELOCITY_Y: i64 = 50;

/// Paddle speed at full axis deflection, in units per tick
/// (1.2 pixels per frame at the nominal frame rate).
pub const PADDLE_SPEED: i64 = 72;

/// Input axis values are fixed-point too: an axis is an integer in
/// `[-AXIS_SCALE, AXIS_SCALE]`, where `AXIS_SCALE` is full deflection.
pub const AXIS_SCALE: i64 = 1000;

/// Ticks between a ball leaving the arena and the next ball spawning
/// (2 seconds).
pub const SPAWN_DELAY: i64 = 120;

/// Largest coordinate or velocity magnitude the simulation tracks. The bound
/// exists only so that the squared distances and products of the collision
/// and motion arithmetic provably fit in an `i64`.
pub const MAX_COORD: i64 = 500_000_000;

/// Largest elapsed time, in ticks, accepted for a single step; keeps the
/// paddle-movement product inside an `i64`.
pub const MAX_DT: i64 = 1_000_000_000;

/// `v` held to the closed interval `[lo, hi]`.
pub open spec fn clamped(v: int, lo: int, hi: int) -> int {
    if v < lo {
        lo
    } else if v > hi {
        hi
    } else {
        v
    }
}

/// Half of a non-negative length, rounded down.
pub fn half(v: i64) -> (r: i64)
    requires
        0 <= v,
    ensures
        r == v as int / 2,
{
    ((v as u64) / 2u64) as i64
}

/// `v` held to the closed interval `[lo, hi]`, executable form.
pub fn clamp_i64(v: i64, lo: i64, hi: i64) -> (r: i64)
    ensures
        r == clamped(v as int, lo as int, hi as int),
{
    if v < lo {
        lo
    } else if v > hi {
        hi
    } else {
        v
    }
}

/// Which half of the arena a paddle defends.
#[derive(Clone, Copy, PartialEq, Eq, Structural, Debug)]
pub enum Side {
    Left,
    Right,
}

/// An entity's position in arena coordinates. The draw depth the renderer
/// needs is no concern of the simulation, so only x and y are kept.
#[derive(Clone, Copy, PartialEq, Eq, Structural, Debug)]
pub struct Transform {
    pub x: i64,
    pub y: i64,
}

/// A velocity in arena units per tick.
#[derive(Clone, Copy, PartialEq, Eq, Structural, Debug)]
pub struct Vec2 {
    pub x: i64,
    pub y: i64,
}

/// A paddle: its side is fixed at creation; width and height are its full
/// extents (the transform marks the rectangle's center).
#[derive(Clone, Copy, PartialEq, Eq, Structural, Debug)]
pub struct Paddle {
    pub side: Side,
    pub width: i64,
    pub height: i64,
}

impl Paddle {
    /// A paddle of the standard dimensions for the given side.
    pub fn new(side: Side) -> (p: Paddle)
        ensures
            p.side == side,
            p.width == PADDLE_WIDTH,
            p.height == PADDLE_HEIGHT,
    {
        Paddle { side, width: PADDLE_WIDTH, height: PADDLE_HEIGHT }
    }
}

/// The ball: a circle with a velocity. While one is alive its radius is
/// positive.
#[derive(Clone, Copy, PartialEq, Eq, Structural, Debug)]
pub struct Ball {
    pub velocity: Vec2,
    pub radius: i64,
}

/// The match score. Scores never decrease and never leave `0..=i32::MAX`.
#[derive(Clone, Copy, PartialEq, Eq, Structural, Debug)]
pub struct ScoreBoard {
    pub score_left: i32,
    pub score_right: i32,
}

pub open spec fn scoreboard_wf(s: ScoreBoard) -> bool {
    &&& 0 <= s.score_left
    &&& 0 <= s.score_right
}

impl Default for ScoreBoard {
    /// A fresh scoreboard: nobody has scored.
    fn default() -> (s: ScoreBoard)
        ensures
            s.score_left == 0,
            s.score_right == 0,
    {
        ScoreBoard { score_left: 0, score_right: 0 }
    }
}

} // verus!
