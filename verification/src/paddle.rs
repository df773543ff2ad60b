//! Paddle control: turns a per-side input axis value and the elapsed frame
//! time into a new paddle y, clamped to the arena. The paddle's x never
//! changes — each side defends a fixed lane.

use vstd::prelude::*;
use crate::components::{
    clamped, clamp_i64, half, Transform, ARENA_HEIGHT, AXIS_SCALE, MAX_DT, PADDLE_SPEED,
};
use crate::world::{paddle_wf, world_wf, PaddleEntity, World};

verus! {

/// How far a paddle travels for an axis deflection `axis` (fixed-point,
/// full scale `AXIS_SCALE`) held for `dt` ticks: `axis * dt * PADDLE_SPEED`,
/// scaled back down, rounding the magnitude toward zero.
pub open spec fn axis_movement(axis: int, dt: int) -> int {
    if axis >= 0 {
        (axis * PADDLE_SPEED * dt) / (AXIS_SCALE as int)
    } else {
        -(((-axis) * PADDLE_SPEED * dt) / (AXIS_SCALE as int))
    }
}

/// The y a paddle of height `height` at `y` ends the frame on: the candidate
/// `y + movement`, held to `[height / 2, ARENA_HEIGHT - height / 2]`.
pub open spec fn paddle_target_y(y: int, height: int, axis: int, dt: int) -> int {
    clamped(y + axis_movement(axis, dt), height / 2, ARENA_HEIGHT - height / 2)
}

/// One frame of paddle control for a single paddle. An absent input reads as
/// axis 0, which moves nothing. The resulting y always lies within
/// `[height / 2, ARENA_HEIGHT - height / 2]`, whatever the axis and elapsed
/// time.
pub fn move_paddle(pe: &mut PaddleEntity, axis: i64, dt: i64)
    requires
        paddle_wf(*old(pe)),
        -AXIS_SCALE <= axis <= AXIS_SCALE,
        0 <= dt <= MAX_DT,
    ensures
        final(pe).transform.y == paddle_target_y(
            old(pe).transform.y as int,
            old(pe).paddle.height as int,
            axis as int,
            dt as int,
        ),
        old(pe).paddle.height / 2 <= final(pe).transform.y
            <= ARENA_HEIGHT - old(pe).paddle.height / 2,
        final(pe).transform.x == old(pe).transform.x,
        final(pe).paddle == old(pe).paddle,
        paddle_wf(*final(pe)),
{
    let axis_abs: i64 = if axis >= 0 {
        axis
    } else {
        -axis
    };
    assert((axis_abs as int) * (PADDLE_SPEED as int) <= 72000int) by (nonlinear_arith)
        requires
            0 <= axis_abs <= 1000,
            PADDLE_SPEED == 72,
    ;
    let deflection: u64 = (axis_abs as u64) * (PADDLE_SPEED as u64);
    assert((deflection as int) * (dt as int) <= 72000000000000int) by (nonlinear_arith)
        requires
            deflection <= 72000,
            0 <= dt <= 1000000000,
    ;
    let magnitude_scaled: u64 = deflection * (dt as u64);
    let magnitude: i64 = (magnitude_scaled / (AXIS_SCALE as u64)) as i64;
    let movement: i64 = if axis >= 0 {
        magnitude
    } else {
        -magnitude
    };
    let lo: i64 = half(pe.paddle.height);
    let hi: i64 = ARENA_HEIGHT - lo;
    let candidate: i64 = pe.transform.y + movement;
    pe.transform.y = clamp_i64(candidate, lo, hi);
}

/// One frame of paddle control for both paddles. Only the paddle transforms
/// change; ball and scoreboard are untouched.
pub fn paddle_system(w: &mut World, left_axis: i64, right_axis: i64, dt: i64)
    requires
        world_wf(*old(w)),
        -AXIS_SCALE <= left_axis <= AXIS_SCALE,
        -AXIS_SCALE <= right_axis <= AXIS_SCALE,
        0 <= dt <= MAX_DT,
    ensures
        *final(w) == paddles_stepped(*old(w), left_axis as int, right_axis as int, dt as int),
        world_wf(*final(w)),
{
    move_paddle(&mut w.left_paddle, left_axis, dt);
    move_paddle(&mut w.right_paddle, right_axis, dt);
}

/// The whole store after one frame of paddle control: each paddle's y is its
/// clamped target, everything else is as it was.
pub open spec fn paddles_stepped(w: World, left_axis: int, right_axis: int, dt: int) -> World {
    World {
        left_paddle: PaddleEntity {
            transform: Transform {
                x: w.left_paddle.transform.x,
                y: paddle_target_y(
                    w.left_paddle.transform.y as int,
                    w.left_paddle.paddle.height as int,
                    left_axis,
                    dt,
                ) as i64,
            },
            ..w.left_paddle
        },
        right_paddle: PaddleEntity {
            transform: Transform {
                x: w.right_paddle.transform.x,
                y: paddle_target_y(
                    w.right_paddle.transform.y as int,
                    w.right_paddle.paddle.height as int,
                    right_axis,
                    dt,
                ) as i64,
            },
            ..w.right_paddle
        },
        ..w
    }
}

} // verus!
