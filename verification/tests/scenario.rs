//! A whole match played through `Game::tick`, one nominal frame (1 tick =
//! 1/60 s) at a time, with the test acting as the scene-lifecycle
//! collaborator: it picks each spawned ball's direction, serving toward the
//! player who just scored.

use pong::components::{Side, Vec2, BALL_VELOCITY_X, BALL_VELOCITY_Y, SPAWN_DELAY};
use pong::game::Game;
use pong::text::ScoreText;

#[test]
fn match_runs_until_the_right_player_scores() {
    let mut game = Game::new();
    let mut text = ScoreText::new();
    // the opening serve goes up and to the right
    let mut serve_dir: i64 = 1;
    let mut ticks: i64 = 0;
    while game.world.scoreboard.score_right < 1 {
        assert!(ticks < 10_000, "the match should settle quickly");
        let serve = Vec2 {
            x: serve_dir * BALL_VELOCITY_X,
            y: BALL_VELOCITY_Y,
        };
        let scored = game.tick(&mut text, 0, 0, 1, serve);
        ticks += 1;
        if let Some(side) = scored {
            serve_dir = match side {
                Side::Left => -1,
                Side::Right => 1,
            };
        }
    }
    // the opening ball sails over the centered right paddle and leaves on
    // the right edge, so the left player scores the first round; the
    // returned serve then leaves on the left edge: score_right becomes 1
    assert_eq!(game.world.scoreboard.score_right, 1);
    assert_eq!(game.world.scoreboard.score_left, 1);
    assert_eq!(text.p2_score, b"1".to_vec());
    assert_eq!(text.p1_score, b"1".to_vec());
    // the scoring ball is destroyed the moment it leaves
    assert!(game.world.ball_slot.is_none());
    // spawn at 120, right exit at 160, respawn at 280, left exit at 320
    assert_eq!(ticks, 320);

    // no ball reappears until the spawn delay has fully elapsed
    for _ in 0..(SPAWN_DELAY - 1) {
        let serve = Vec2 { x: BALL_VELOCITY_X, y: BALL_VELOCITY_Y };
        game.tick(&mut text, 0, 0, 1, serve);
        assert!(game.world.ball_slot.is_none());
    }
    let serve = Vec2 { x: BALL_VELOCITY_X, y: BALL_VELOCITY_Y };
    game.tick(&mut text, 0, 0, 1, serve);
    assert!(game.world.ball_slot.is_some());
}

#[test]
fn nothing_spawns_before_the_delay_runs_out() {
    let mut game = Game::new();
    let mut text = ScoreText::new();
    let serve = Vec2 { x: BALL_VELOCITY_X, y: BALL_VELOCITY_Y };
    for _ in 0..(SPAWN_DELAY - 1) {
        game.tick(&mut text, 0, 0, 1, serve);
        assert!(game.world.ball_slot.is_none());
    }
    game.tick(&mut text, 0, 0, 1, serve);
    let be = game.world.ball_slot.expect("ball is due exactly on the delay");
    // the fresh ball has already taken its first motion step
    assert_eq!(be.transform.x, 3075);
    assert_eq!(be.transform.y, 3050);
}

#[test]
fn paddles_answer_input_during_a_match() {
    let mut game = Game::new();
    let mut text = ScoreText::new();
    let serve = Vec2 { x: BALL_VELOCITY_X, y: BALL_VELOCITY_Y };
    game.tick(&mut text, 1000, -1000, 1, serve);
    assert_eq!(game.world.left_paddle.transform.y, 3072);
    assert_eq!(game.world.right_paddle.transform.y, 2928);
    // x stays fixed per side, whatever the input
    assert_eq!(game.world.left_paddle.transform.x, 120);
    assert_eq!(game.world.right_paddle.transform.x, 5880);
}
