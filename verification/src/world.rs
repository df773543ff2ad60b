//! The entity store the systems step over: two paddle entities, at most one
//! ball entity, and the scoreboard, each held in an explicit slot rather than
//! behind a dynamic component table.

use vstd::prelude::*;
use crate::components::{
    Ball, Paddle, ScoreBoard, Side, Transform, Vec2, half, scoreboard_wf, ARENA_HEIGHT,
    ARENA_WIDTH, BALL_RADIUS, MAX_COORD, PADDLE_HEIGHT, PADDLE_WIDTH,
};

verus! {

/// A paddle together with its transform.
#[derive(Clone, Copy, PartialEq, Eq, Structural, Debug)]
pub struct PaddleEntity {
    pub paddle: Paddle,
    pub transform: Transform,
}

/// The ball together with its transform.
#[derive(Clone, Copy, PartialEq, Eq, Structural, Debug)]
pub struct BallEntity {
    pub ball: Ball,
    pub transform: Transform,
}

/// Every live game entity. The ball slot is empty between a score and the
/// next spawn (zero-or-one ball invariant).
#[derive(Clone, Copy, Debug)]
pub struct World {
    pub left_paddle: PaddleEntity,
    pub right_paddle: PaddleEntity,
    pub ball_slot: Option<BallEntity>,
    pub scoreboard: ScoreBoard,
}

/// A well-formed paddle entity: positive extents that fit the arena, x on
/// the playfield, and y already inside the clamp range the paddle-control
/// system maintains.
pub open spec fn paddle_wf(pe: PaddleEntity) -> bool {
    &&& 0 < pe.paddle.width <= ARENA_WIDTH
    &&& 0 < pe.paddle.height <= ARENA_HEIGHT
    &&& 0 <= pe.transform.x <= ARENA_WIDTH
    &&& pe.paddle.height / 2 <= pe.transform.y <= ARENA_HEIGHT - pe.paddle.height / 2
}

/// A well-formed ball entity: positive radius and every coordinate and
/// velocity component inside the tracked range.
pub open spec fn ball_wf(be: BallEntity) -> bool {
    &&& 0 < be.ball.radius <= MAX_COORD
    &&& -MAX_COORD <= be.ball.velocity.x <= MAX_COORD
    &&& -MAX_COORD <= be.ball.velocity.y <= MAX_COORD
    &&& -MAX_COORD <= be.transform.x <= MAX_COORD
    &&& -MAX_COORD <= be.transform.y <= MAX_COORD
}

/// The store's invariant: one paddle per side, a well-formed ball when one
/// is alive, and a well-formed score.
pub open spec fn world_wf(w: World) -> bool {
    &&& paddle_wf(w.left_paddle)
    &&& paddle_wf(w.right_paddle)
    &&& w.left_paddle.paddle.side == Side::Left
    &&& w.right_paddle.paddle.side == Side::Right
    &&& match w.ball_slot {
        Some(be) => ball_wf(be),
        None => true,
    }
    &&& scoreboard_wf(w.scoreboard)
}

/// The two paddles of a fresh match: standard dimensions, vertically
/// centered, flush against their arena edge.
pub fn paddles() -> (r: (PaddleEntity, PaddleEntity))
    ensures
        r.0.paddle.side == Side::Left,
        r.1.paddle.side == Side::Right,
        r.0.paddle.width == PADDLE_WIDTH && r.0.paddle.height == PADDLE_HEIGHT,
        r.1.paddle.width == PADDLE_WIDTH && r.1.paddle.height == PADDLE_HEIGHT,
        r.0.transform.x == PADDLE_WIDTH / 2,
        r.1.transform.x == ARENA_WIDTH - PADDLE_WIDTH / 2,
        r.0.transform.y == ARENA_HEIGHT / 2,
        r.1.transform.y == ARENA_HEIGHT / 2,
        paddle_wf(r.0) && paddle_wf(r.1),
{
    let half_w: i64 = half(PADDLE_WIDTH);
    let mid: i64 = half(ARENA_HEIGHT);
    let left = PaddleEntity {
        paddle: Paddle::new(Side::Left),
        transform: Transform { x: half_w, y: mid },
    };
    let right = PaddleEntity {
        paddle: Paddle::new(Side::Right),
        transform: Transform { x: ARENA_WIDTH - half_w, y: mid },
    };
    (left, right)
}

/// A ball at the arena center with the given spawn velocity, as a value the
/// contracts can name.
pub open spec fn spawned_ball(velocity: Vec2) -> BallEntity {
    BallEntity {
        ball: Ball { velocity, radius: BALL_RADIUS },
        transform: Transform { x: (ARENA_WIDTH / 2) as i64, y: (ARENA_HEIGHT / 2) as i64 },
    }
}

/// A ball at the arena center with the given spawn velocity.
pub fn ball(velocity: Vec2) -> (r: BallEntity)
    ensures
        r == spawned_ball(velocity),
        r.ball.velocity == velocity,
        r.ball.radius == BALL_RADIUS,
        r.transform.x == ARENA_WIDTH / 2,
        r.transform.y == ARENA_HEIGHT / 2,
        -MAX_COORD <= velocity.x <= MAX_COORD && -MAX_COORD <= velocity.y <= MAX_COORD
            ==> ball_wf(r),
{
    let mid_x: i64 = half(ARENA_WIDTH);
    let mid_y: i64 = half(ARENA_HEIGHT);
    BallEntity {
        ball: Ball { velocity, radius: BALL_RADIUS },
        transform: Transform { x: mid_x, y: mid_y },
    }
}

/// A fresh scoreboard.
pub fn scoreboard() -> (r: ScoreBoard)
    ensures
        r.score_left == 0,
        r.score_right == 0,
{
    ScoreBoard { score_left: 0, score_right: 0 }
}

impl World {
    /// A fresh match: paddles in place, no ball yet (the scene lifecycle
    /// spawns the first one after its delay), score zero.
    pub fn new() -> (w: World)
        ensures
            world_wf(w),
            w.ball_slot is None,
            w.scoreboard.score_left == 0,
            w.scoreboard.score_right == 0,
            w.left_paddle == paddles_spec().0,
            w.right_paddle == paddles_spec().1,
    {
        let (left, right) = paddles();
        World {
            left_paddle: left,
            right_paddle: right,
            ball_slot: None,
            scoreboard: scoreboard(),
        }
    }
}

/// The initial paddle placement, as a value the contracts can name.
pub open spec fn paddles_spec() -> (PaddleEntity, PaddleEntity) {
    (
        PaddleEntity {
            paddle: Paddle { side: Side::Left, width: PADDLE_WIDTH, height: PADDLE_HEIGHT },
            transform: Transform {
                x: (PADDLE_WIDTH / 2) as i64,
                y: (ARENA_HEIGHT / 2) as i64,
            },
        },
        PaddleEntity {
            paddle: Paddle { side: Side::Right, width: PADDLE_WIDTH, height: PADDLE_HEIGHT },
            transform: Transform {
                x: (ARENA_WIDTH - PADDLE_WIDTH / 2) as i64,
                y: (ARENA_HEIGHT / 2) as i64,
            },
        },
    )
}

} // verus!
