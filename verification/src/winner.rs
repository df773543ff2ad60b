//! Round end: when the ball's center has crossed an arena side, the player
//! on the opposite side scores, the ball entity is destroyed, and the
//! scoring side's display label gets the new count. Spawning the next ball
//! is the scene lifecycle's business, not this system's: it only detects the
//! exit. With no live ball the system does nothing at all.

use vstd::prelude::*;
use crate::components::{ScoreBoard, Side, ARENA_WIDTH};
use crate::text::{decimal_digits, ScoreText};
use crate::world::{world_wf, BallEntity, World};

verus! {

/// The side that scores for a ball at this position: crossing x < 0 scores
/// for the right player, crossing x > `ARENA_WIDTH` for the left, anything
/// on the playfield (edges included) for nobody.
pub open spec fn exit_scores_for(be: BallEntity) -> Option<Side> {
    if be.transform.x < 0 {
        Some(Side::Right)
    } else if be.transform.x > ARENA_WIDTH {
        Some(Side::Left)
    } else {
        None
    }
}

/// Which side scores this frame, over the optional ball slot.
pub open spec fn winner_outcome(w: World) -> Option<Side> {
    match w.ball_slot {
        Some(be) => exit_scores_for(be),
        None => None,
    }
}

/// The whole store after the winner system: on an exit the scorer's count
/// goes up by exactly one and the ball slot empties; otherwise nothing
/// changes.
pub open spec fn round_scored(w: World) -> World {
    match winner_outcome(w) {
        Some(side) => World {
            ball_slot: None,
            scoreboard: ScoreBoard {
                score_left: if side is Left {
                    (w.scoreboard.score_left + 1) as i32
                } else {
                    w.scoreboard.score_left
                },
                score_right: if side is Right {
                    (w.scoreboard.score_right + 1) as i32
                } else {
                    w.scoreboard.score_right
                },
            },
            ..w
        },
        None => w,
    }
}

/// One frame of round detection and scoring, with the display labels kept in
/// step with the scoreboard.
pub fn winner_system(w: &mut World, text: &mut ScoreText) -> (scored: Option<Side>)
    requires
        world_wf(*old(w)),
        old(w).scoreboard.score_left < i32::MAX,
        old(w).scoreboard.score_right < i32::MAX,
    ensures
        *final(w) == round_scored(*old(w)),
        scored == winner_outcome(*old(w)),
        world_wf(*final(w)),
        // No ball, no effect.
        old(w).ball_slot is None ==> *final(w) == *old(w) && scored is None
            && *final(text) == *old(text),
        // An exit scores exactly once and destroys the ball.
        (match old(w).ball_slot {
            Some(be) => {
                &&& (be.transform.x < 0 ==> final(w).scoreboard.score_right
                    == old(w).scoreboard.score_right + 1
                    && final(w).scoreboard.score_left == old(w).scoreboard.score_left
                    && final(w).ball_slot is None
                    && scored == Some(Side::Right))
                &&& (be.transform.x > ARENA_WIDTH ==> final(w).scoreboard.score_left
                    == old(w).scoreboard.score_left + 1
                    && final(w).scoreboard.score_right == old(w).scoreboard.score_right
                    && final(w).ball_slot is None
                    && scored == Some(Side::Left))
                &&& (0 <= be.transform.x <= ARENA_WIDTH ==> *final(w) == *old(w)
                    && scored is None)
            },
            None => true,
        }),
        // Scores never decrease.
        final(w).scoreboard.score_left >= old(w).scoreboard.score_left,
        final(w).scoreboard.score_right >= old(w).scoreboard.score_right,
        // The scorer's label shows the new count; the other label is as it was.
        final(text).p1_score@ == if scored == Some(Side::Left) {
            decimal_digits(final(w).scoreboard.score_left as nat)
        } else {
            old(text).p1_score@
        },
        final(text).p2_score@ == if scored == Some(Side::Right) {
            decimal_digits(final(w).scoreboard.score_right as nat)
        } else {
            old(text).p2_score@
        },
{
    let outcome: Option<Side> = match &w.ball_slot {
        Some(be) => {
            if be.transform.x < 0 {
                Some(Side::Right)
            } else if be.transform.x > ARENA_WIDTH {
                Some(Side::Left)
            } else {
                None
            }
        },
        None => None,
    };
    match outcome {
        Some(Side::Left) => {
            w.ball_slot = None;
            w.scoreboard.score_left = w.scoreboard.score_left + 1;
            text.set_score(Side::Left, w.scoreboard.score_left);
            Some(Side::Left)
        },
        Some(Side::Right) => {
            w.ball_slot = None;
            w.scoreboard.score_right = w.scoreboard.score_right + 1;
            text.set_score(Side::Right, w.scoreboard.score_right);
            Some(Side::Right)
        },
        None => None,
    }
}

} // verus!
