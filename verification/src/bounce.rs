//! Collision and bounce resolution. The ball is a circle, a paddle is an
//! axis-aligned rectangle; overlap is decided by clamping the ball's center
//! into the rectangle (the closest-point test) and comparing the squared
//! distance with the squared radius. A hit never moves anything: the only
//! effect is a velocity sign flip.
//!
//! A paddle flips the horizontal velocity only when the ball is moving
//! toward that paddle, and a wall flips the vertical velocity only when the
//! ball is moving into that wall. The direction check is what makes each
//! contact flip a component exactly once: a ball that still overlaps after
//! its bounce is by then moving away, and is left alone rather than being
//! reflected back into the obstacle frame after frame.

use vstd::prelude::*;
use crate::components::{
    clamped, clamp_i64, half, Ball, Side, Vec2, ARENA_HEIGHT,
};
use crate::world::{ball_wf, paddle_wf, world_wf, BallEntity, PaddleEntity, World};

verus! {

/// Closest-point overlap between the ball's circle and a paddle's rectangle.
/// Touching counts as contact.
pub open spec fn ball_overlaps_paddle(be: BallEntity, pe: PaddleEntity) -> bool {
    let cx = clamped(
        be.transform.x as int,
        pe.transform.x - pe.paddle.width / 2,
        pe.transform.x + pe.paddle.width / 2,
    );
    let cy = clamped(
        be.transform.y as int,
        pe.transform.y - pe.paddle.height / 2,
        pe.transform.y + pe.paddle.height / 2,
    );
    let dx = be.transform.x - cx;
    let dy = be.transform.y - cy;
    dx * dx + dy * dy <= be.ball.radius * be.ball.radius
}

/// Whether a horizontal velocity runs toward the given paddle's side.
pub open spec fn moving_toward(side: Side, vx: int) -> bool {
    match side {
        Side::Left => vx < 0,
        Side::Right => vx > 0,
    }
}

/// A paddle reflects the ball when the two overlap and the ball is moving
/// toward that paddle.
pub open spec fn paddle_reflects(be: BallEntity, pe: PaddleEntity) -> bool {
    ball_overlaps_paddle(be, pe) && moving_toward(pe.paddle.side, be.ball.velocity.x as int)
}

/// A wall reflects the ball when the ball's edge has reached the wall and
/// the ball is moving into it: bottom wall at y = 0, top wall at
/// y = `ARENA_HEIGHT`.
pub open spec fn wall_reflects(be: BallEntity) -> bool {
    ||| (be.transform.y - be.ball.radius <= 0 && be.ball.velocity.y < 0)
    ||| (be.transform.y + be.ball.radius >= ARENA_HEIGHT && be.ball.velocity.y > 0)
}

/// The ball's velocity after one resolution pass: the horizontal component
/// flips when either paddle reflects, the vertical one when a wall does.
/// The two tests read the pre-resolution velocity, so simultaneous contacts
/// (a corner) resolve independently and in either order.
pub open spec fn bounced_velocity(be: BallEntity, left: PaddleEntity, right: PaddleEntity) -> Vec2 {
    Vec2 {
        x: if paddle_reflects(be, left) || paddle_reflects(be, right) {
            (-(be.ball.velocity.x as int)) as i64
        } else {
            be.ball.velocity.x
        },
        y: if wall_reflects(be) {
            (-(be.ball.velocity.y as int)) as i64
        } else {
            be.ball.velocity.y
        },
    }
}

/// The whole store after one resolution pass: only the ball's velocity can
/// change; an empty ball slot makes the pass a no-op.
pub open spec fn ball_bounced(w: World) -> World {
    match w.ball_slot {
        Some(be) => World {
            ball_slot: Some(
                BallEntity {
                    ball: Ball {
                        velocity: bounced_velocity(be, w.left_paddle, w.right_paddle),
                        radius: be.ball.radius,
                    },
                    transform: be.transform,
                },
            ),
            ..w
        },
        None => w,
    }
}

/// The executable closest-point test.
pub fn circle_overlaps_paddle(be: &BallEntity, pe: &PaddleEntity) -> (r: bool)
    requires
        ball_wf(*be),
        paddle_wf(*pe),
    ensures
        r == ball_overlaps_paddle(*be, *pe),
{
    let half_w: i64 = half(pe.paddle.width);
    let half_h: i64 = half(pe.paddle.height);
    let cx: i64 = clamp_i64(be.transform.x, pe.transform.x - half_w, pe.transform.x + half_w);
    let cy: i64 = clamp_i64(be.transform.y, pe.transform.y - half_h, pe.transform.y + half_h);
    let dx: i64 = be.transform.x - cx;
    let dy: i64 = be.transform.y - cy;
    proof {
        lemma_square_bounded(dx as int);
        lemma_square_bounded(dy as int);
        lemma_square_bounded(be.ball.radius as int);
    }
    dx * dx + dy * dy <= be.ball.radius * be.ball.radius
}

/// The square of anything within `MAX_COORD` plus a small arena margin fits
/// comfortably in half the `i64` range.
proof fn lemma_square_bounded(v: int)
    requires
        -600000000 <= v <= 600000000,
    ensures
        0 <= v * v <= 360000000000000000int,
{
    assert(0 <= v * v <= 360000000000000000int) by (nonlinear_arith)
        requires
            -600000000 <= v <= 600000000,
    ;
}

/// One frame of collision resolution over the store.
pub fn bounce_system(w: &mut World)
    requires
        world_wf(*old(w)),
    ensures
        *final(w) == ball_bounced(*old(w)),
        world_wf(*final(w)),
{
    let left: PaddleEntity = w.left_paddle;
    let right: PaddleEntity = w.right_paddle;
    match &mut w.ball_slot {
        Some(be) => {
            let hit_left: bool = circle_overlaps_paddle(be, &left);
            let hit_right: bool = circle_overlaps_paddle(be, &right);
            let toward_left: bool = match left.paddle.side {
                Side::Left => be.ball.velocity.x < 0,
                Side::Right => be.ball.velocity.x > 0,
            };
            let toward_right: bool = match right.paddle.side {
                Side::Left => be.ball.velocity.x < 0,
                Side::Right => be.ball.velocity.x > 0,
            };
            let flip_x: bool = (hit_left && toward_left) || (hit_right && toward_right);
            let flip_y: bool = (be.transform.y - be.ball.radius <= 0 && be.ball.velocity.y < 0)
                || (be.transform.y + be.ball.radius >= ARENA_HEIGHT && be.ball.velocity.y > 0);
            if flip_x {
                be.ball.velocity.x = -be.ball.velocity.x;
            }
            if flip_y {
                be.ball.velocity.y = -be.ball.velocity.y;
            }
        },
        None => {},
    }
}

/// A wall contact flips the vertical velocity exactly once: the resolved
/// ball is moving away from the wall, so a second resolution pass on the
/// still-overlapping ball leaves its velocity alone.
pub proof fn lemma_wall_bounce_once(be: BallEntity, left: PaddleEntity, right: PaddleEntity)
    requires
        ball_wf(be),
        be.transform.y + be.ball.radius >= ARENA_HEIGHT,
        be.ball.velocity.y > 0,
        be.transform.y - be.ball.radius > 0,
    ensures
        bounced_velocity(be, left, right).y == -(be.ball.velocity.y as int),
        ({
            let after = BallEntity {
                ball: Ball {
                    velocity: bounced_velocity(be, left, right),
                    radius: be.ball.radius,
                },
                transform: be.transform,
            };
            bounced_velocity(after, left, right).y == after.ball.velocity.y
        }),
{
}

/// A paddle contact flips the horizontal velocity exactly once: the resolved
/// ball is moving away from the paddle it hit, so a second resolution pass
/// on the still-overlapping ball leaves its velocity alone.
pub proof fn lemma_paddle_bounce_once(be: BallEntity, left: PaddleEntity, right: PaddleEntity)
    requires
        ball_wf(be),
        left.paddle.side == Side::Left,
        right.paddle.side == Side::Right,
        paddle_reflects(be, left),
        !ball_overlaps_paddle(be, right),
    ensures
        bounced_velocity(be, left, right).x == -(be.ball.velocity.x as int),
        ({
            let after = BallEntity {
                ball: Ball {
                    velocity: bounced_velocity(be, left, right),
                    radius: be.ball.radius,
                },
                transform: be.transform,
            };
            bounced_velocity(after, left, right).x == after.ball.velocity.x
        }),
{
}

} // verus!
