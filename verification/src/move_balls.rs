//! Ball motion: integrates the ball's velocity over the elapsed frame time.
//! No clamping and no boundary handling happen here — walls and paddles are
//! the bounce system's business, leaving the arena is the winner system's.

use vstd::prelude::*;
use crate::components::{MAX_COORD, MAX_DT, Transform};
use crate::world::{ball_wf, world_wf, BallEntity, World};

verus! {

/// True when one motion step keeps the ball inside the coordinate range the
/// simulation tracks (an `i64` head-room bound, not a gameplay rule).
pub open spec fn motion_in_range(be: BallEntity, dt: int) -> bool {
    &&& -MAX_COORD <= be.transform.x + be.ball.velocity.x * dt <= MAX_COORD
    &&& -MAX_COORD <= be.transform.y + be.ball.velocity.y * dt <= MAX_COORD
}

/// `motion_in_range` lifted to the store's optional ball slot.
pub open spec fn world_motion_in_range(w: World, dt: int) -> bool {
    match w.ball_slot {
        Some(be) => motion_in_range(be, dt),
        None => true,
    }
}

/// One motion step for a live ball: exactly
/// `new position == old position + velocity * dt`, nothing else changes.
pub fn move_ball(be: &mut BallEntity, dt: i64)
    requires
        ball_wf(*old(be)),
        0 <= dt <= MAX_DT,
        motion_in_range(*old(be), dt as int),
    ensures
        final(be).transform.x == old(be).transform.x + old(be).ball.velocity.x * dt,
        final(be).transform.y == old(be).transform.y + old(be).ball.velocity.y * dt,
        final(be).ball == old(be).ball,
        ball_wf(*final(be)),
{
    proof {
        lemma_velocity_times_dt_bounded(be.ball.velocity.x as int, dt as int);
        lemma_velocity_times_dt_bounded(be.ball.velocity.y as int, dt as int);
    }
    let dx: i64 = be.ball.velocity.x * dt;
    let dy: i64 = be.ball.velocity.y * dt;
    be.transform = Transform { x: be.transform.x + dx, y: be.transform.y + dy };
}

/// A velocity component held to `MAX_COORD` times a dt held to `MAX_DT`
/// stays well inside the `i64` range.
proof fn lemma_velocity_times_dt_bounded(v: int, dt: int)
    requires
        -MAX_COORD <= v <= MAX_COORD,
        0 <= dt <= MAX_DT,
    ensures
        -500000000000000000int <= v * dt <= 500000000000000000int,
{
    assert(-500000000000000000int <= v * dt <= 500000000000000000int) by (nonlinear_arith)
        requires
            -500000000 <= v <= 500000000,
            0 <= dt <= 1000000000,
    ;
}

/// One frame of ball motion over the store: moves the ball when one is
/// alive, and is a no-op when the slot is empty.
pub fn ball_motion_system(w: &mut World, dt: i64)
    requires
        world_wf(*old(w)),
        0 <= dt <= MAX_DT,
        world_motion_in_range(*old(w), dt as int),
    ensures
        *final(w) == ball_moved(*old(w), dt as int),
        world_wf(*final(w)),
{
    match &mut w.ball_slot {
        Some(be) => {
            move_ball(be, dt);
        },
        None => {},
    }
}

/// The whole store after one frame of ball motion.
pub open spec fn ball_moved(w: World, dt: int) -> World {
    match w.ball_slot {
        Some(be) => World {
            ball_slot: Some(
                BallEntity {
                    ball: be.ball,
                    transform: Transform {
                        x: (be.transform.x + be.ball.velocity.x * dt) as i64,
                        y: (be.transform.y + be.ball.velocity.y * dt) as i64,
                    },
                },
            ),
            ..w
        },
        None => w,
    }
}

} // verus!
