//! One whole simulation frame, in the fixed system order the gameplay needs:
//! lifecycle (spawn when due), paddle control, ball motion, then collision
//! resolution and round detection on the freshly moved transforms. A
//! collision's velocity change is seen by ball motion only on the next
//! frame.

use vstd::prelude::*;
use crate::components::{Side, Vec2, AXIS_SCALE, MAX_COORD, MAX_DT, SPAWN_DELAY};
use crate::bounce::{ball_bounced, bounce_system};
use crate::lifecycle::{pong_wf, spawn_due, timer_stepped, Pong};
use crate::move_balls::{ball_motion_system, world_motion_in_range, ball_moved};
use crate::paddle::{paddle_system, paddles_stepped};
use crate::text::{decimal_digits, ScoreText};
use crate::winner::{round_scored, winner_outcome, winner_system};
use crate::world::{ball, world_wf, World};

verus! {

/// The full simulation state: the entity store plus the lifecycle timer.
#[derive(Clone, Copy, Debug)]
pub struct Game {
    pub world: World,
    pub pong: Pong,
}

pub open spec fn game_wf(g: Game) -> bool {
    world_wf(g.world) && pong_wf(g.pong)
}

/// The store after the lifecycle's turn: a due spawn puts a ball with the
/// chosen velocity at the arena center, but only into an empty slot (at most
/// one ball ever exists).
pub open spec fn world_spawned(w: World, due: bool, velocity: Vec2) -> World {
    if due && w.ball_slot is None {
        World { ball_slot: Some(crate::world::spawned_ball(velocity)), ..w }
    } else {
        w
    }
}

/// The store after all of a frame's systems.
pub open spec fn ticked_world(g: Game, left_axis: int, right_axis: int, dt: int, velocity: Vec2) -> World {
    round_scored(
        ball_bounced(
            ball_moved(
                paddles_stepped(
                    world_spawned(g.world, spawn_due(g.pong, dt), velocity),
                    left_axis,
                    right_axis,
                    dt,
                ),
                dt,
            ),
        ),
    )
}

/// Who scores during the frame, if anyone.
pub open spec fn ticked_outcome(g: Game, left_axis: int, right_axis: int, dt: int, velocity: Vec2) -> Option<Side> {
    winner_outcome(
        ball_bounced(
            ball_moved(
                paddles_stepped(
                    world_spawned(g.world, spawn_due(g.pong, dt), velocity),
                    left_axis,
                    right_axis,
                    dt,
                ),
                dt,
            ),
        ),
    )
}

/// The lifecycle state after the frame: rearmed with the full delay on a
/// score, otherwise simply counted down.
pub open spec fn ticked_pong(g: Game, left_axis: int, right_axis: int, dt: int, velocity: Vec2) -> Pong {
    if ticked_outcome(g, left_axis, right_axis, dt, velocity) is Some {
        Pong { ball_spawn_timer: Some(SPAWN_DELAY) }
    } else {
        timer_stepped(g.pong, dt)
    }
}

/// Paddle control writes only paddle transforms and ball motion writes only
/// the ball's, so a host scheduler may run the two in either order (or in
/// parallel) without changing the frame.
pub proof fn lemma_paddle_and_motion_commute(
    w: World,
    left_axis: int,
    right_axis: int,
    dt: int,
)
    ensures
        ball_moved(paddles_stepped(w, left_axis, right_axis, dt), dt) == paddles_stepped(
            ball_moved(w, dt),
            left_axis,
            right_axis,
            dt,
        ),
{
}

/// Collision resolution and round detection read the same freshly moved
/// transforms and may run in either order within a frame: a ball that exits
/// is destroyed whichever system saw it first, and a ball that stays has its
/// velocity resolved the same way whether or not the winner system looked at
/// it before.
pub proof fn lemma_bounce_and_winner_commute(w: World)
    requires
        world_wf(w),
    ensures
        round_scored(ball_bounced(w)) == ball_bounced(round_scored(w)),
        winner_outcome(ball_bounced(w)) == winner_outcome(w),
{
}

impl Game {
    /// A fresh match with the first spawn scheduled.
    pub fn new() -> (g: Game)
        ensures
            game_wf(g),
            g.world.ball_slot is None,
            g.world.scoreboard.score_left == 0 && g.world.scoreboard.score_right == 0,
            g.pong.ball_spawn_timer == Some(SPAWN_DELAY),
    {
        let mut pong = Pong::default();
        pong.on_start();
        Game { world: World::new(), pong }
    }

    /// One simulation frame. `spawn_velocity` is the collaborator's
    /// direction choice for a ball that spawns this frame; it is ignored
    /// whenever no spawn is due.
    pub fn tick(
        &mut self,
        text: &mut ScoreText,
        left_axis: i64,
        right_axis: i64,
        dt: i64,
        spawn_velocity: Vec2,
    ) -> (scored: Option<Side>)
        requires
            game_wf(*old(self)),
            -AXIS_SCALE <= left_axis <= AXIS_SCALE,
            -AXIS_SCALE <= right_axis <= AXIS_SCALE,
            0 <= dt <= MAX_DT,
            -MAX_COORD <= spawn_velocity.x <= MAX_COORD,
            -MAX_COORD <= spawn_velocity.y <= MAX_COORD,
            old(self).world.scoreboard.score_left < i32::MAX,
            old(self).world.scoreboard.score_right < i32::MAX,
            world_motion_in_range(
                world_spawned(
                    old(self).world,
                    spawn_due(old(self).pong, dt as int),
                    spawn_velocity,
                ),
                dt as int,
            ),
        ensures
            final(self).world == ticked_world(
                *old(self),
                left_axis as int,
                right_axis as int,
                dt as int,
                spawn_velocity,
            ),
            final(self).pong == ticked_pong(
                *old(self),
                left_axis as int,
                right_axis as int,
                dt as int,
                spawn_velocity,
            ),
            scored == ticked_outcome(
                *old(self),
                left_axis as int,
                right_axis as int,
                dt as int,
                spawn_velocity,
            ),
            game_wf(*final(self)),
            final(self).world.scoreboard.score_left >= old(self).world.scoreboard.score_left,
            final(self).world.scoreboard.score_right >= old(self).world.scoreboard.score_right,
            final(text).p1_score@ == if scored == Some(Side::Left) {
                decimal_digits(final(self).world.scoreboard.score_left as nat)
            } else {
                old(text).p1_score@
            },
            final(text).p2_score@ == if scored == Some(Side::Right) {
                decimal_digits(final(self).world.scoreboard.score_right as nat)
            } else {
                old(text).p2_score@
            },
    {
        let due = self.pong.update(dt);
        if due && self.world.ball_slot.is_none() {
            self.world.ball_slot = Some(ball(spawn_velocity));
        }
        paddle_system(&mut self.world, left_axis, right_axis, dt);
        ball_motion_system(&mut self.world, dt);
        bounce_system(&mut self.world);
        let scored = winner_system(&mut self.world, text);
        match scored {
            Some(_) => {
                self.pong.arm_spawn_timer();
            },
            None => {},
        }
        scored
    }
}

} // verus!
