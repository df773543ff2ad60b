//! The scene lifecycle state: a spawn-delay timer that decides *when* the
//! next ball appears. What velocity it gets is the collaborator's choice and
//! stays outside this state machine — it only reacts to the timer running
//! out.

use vstd::prelude::*;
use crate::components::{MAX_DT, SPAWN_DELAY};

verus! {

/// The match lifecycle state. While the timer holds a value, no ball should
/// be on the field; when it reaches zero the next ball is due.
#[derive(Clone, Copy, PartialEq, Eq, Structural, Debug)]
pub struct Pong {
    pub ball_spawn_timer: Option<i64>,
}

/// An armed timer always holds between one tick and the full delay.
pub open spec fn pong_wf(p: Pong) -> bool {
    match p.ball_spawn_timer {
        Some(t) => 0 < t <= SPAWN_DELAY,
        None => true,
    }
}

/// Whether a step of `dt` ticks runs the timer out.
pub open spec fn spawn_due(p: Pong, dt: int) -> bool {
    match p.ball_spawn_timer {
        Some(t) => t - dt <= 0,
        None => false,
    }
}

/// The lifecycle state after a step of `dt` ticks: a running timer loses
/// `dt`, an expired one is cleared, a cleared one stays cleared.
pub open spec fn timer_stepped(p: Pong, dt: int) -> Pong {
    match p.ball_spawn_timer {
        Some(t) => if t - dt <= 0 {
            Pong { ball_spawn_timer: None }
        } else {
            Pong { ball_spawn_timer: Some((t - dt) as i64) }
        },
        None => p,
    }
}

impl Default for Pong {
    /// Before the scene starts nothing is scheduled.
    fn default() -> (p: Pong)
        ensures
            p.ball_spawn_timer is None,
    {
        Pong { ball_spawn_timer: None }
    }
}

impl Pong {
    /// (Re)arms the spawn timer with the full delay, as happens at scene
    /// start and right after each score.
    pub fn arm_spawn_timer(&mut self)
        ensures
            final(self).ball_spawn_timer == Some(SPAWN_DELAY),
            pong_wf(*final(self)),
    {
        self.ball_spawn_timer = Some(SPAWN_DELAY);
    }

    /// Scene start: schedule the first ball. (Loading the sprite sheet and
    /// creating the display entities is the hosting application's side of
    /// scene start.)
    pub fn on_start(&mut self)
        ensures
            final(self).ball_spawn_timer == Some(SPAWN_DELAY),
            pong_wf(*final(self)),
    {
        self.arm_spawn_timer();
    }

    /// One frame of the lifecycle: counts the timer down and reports whether
    /// a ball is now due. The timer fires exactly once per arming — once it
    /// reports `true`, it is cleared and stays silent until rearmed.
    pub fn update(&mut self, dt: i64) -> (spawn: bool)
        requires
            pong_wf(*old(self)),
            0 <= dt <= MAX_DT,
        ensures
            spawn == spawn_due(*old(self), dt as int),
            *final(self) == timer_stepped(*old(self), dt as int),
            pong_wf(*final(self)),
    {
        match self.ball_spawn_timer {
            Some(t) => {
                let remaining: i64 = t - dt;
                if remaining <= 0 {
                    self.ball_spawn_timer = None;
                    true
                } else {
                    self.ball_spawn_timer = Some(remaining);
                    false
                }
            },
            None => false,
        }
    }
}

} // verus!
