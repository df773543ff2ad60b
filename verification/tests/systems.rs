use pong::bounce::bounce_system;
use pong::components::{
    Ball, Side, Transform, Vec2, ARENA_HEIGHT, ARENA_WIDTH, BALL_RADIUS, PADDLE_HEIGHT,
    PADDLE_WIDTH, UNITS_PER_PIXEL,
};
use pong::lifecycle::Pong;
use pong::move_balls::{ball_motion_system, move_ball};
use pong::paddle::{move_paddle, paddle_system};
use pong::text::{score_digits, ScoreText};
use pong::winner::winner_system;
use pong::world::{ball, paddles, scoreboard, BallEntity, PaddleEntity, World};

fn world_with_ball(be: BallEntity) -> World {
    let mut w = World::new();
    w.ball_slot = Some(be);
    w
}

fn ball_at(x: i64, y: i64, vx: i64, vy: i64) -> BallEntity {
    BallEntity {
        ball: Ball {
            velocity: Vec2 { x: vx, y: vy },
            radius: BALL_RADIUS,
        },
        transform: Transform { x, y },
    }
}

#[test]
fn arena_constants_match_the_pixel_design() {
    // 100 x 100 arena, 4 x 16 paddles, radius-2 ball, in pixels
    assert_eq!(ARENA_WIDTH, 100 * UNITS_PER_PIXEL);
    assert_eq!(ARENA_HEIGHT, 100 * UNITS_PER_PIXEL);
    assert_eq!(PADDLE_WIDTH, 4 * UNITS_PER_PIXEL);
    assert_eq!(PADDLE_HEIGHT, 16 * UNITS_PER_PIXEL);
    assert_eq!(BALL_RADIUS, 2 * UNITS_PER_PIXEL);
}

#[test]
fn initial_paddles_sit_centered_on_their_edges() {
    let (left, right) = paddles();
    assert_eq!(left.paddle.side, Side::Left);
    assert_eq!(right.paddle.side, Side::Right);
    assert_eq!(left.transform.x, 120);
    assert_eq!(right.transform.x, 5880);
    assert_eq!(left.transform.y, 3000);
    assert_eq!(right.transform.y, 3000);
    assert_eq!(left.paddle.width, 240);
    assert_eq!(left.paddle.height, 960);
}

#[test]
fn initial_ball_spawns_at_center() {
    let be = ball(Vec2 { x: 75, y: 50 });
    assert_eq!(be.transform.x, 3000);
    assert_eq!(be.transform.y, 3000);
    assert_eq!(be.ball.radius, 120);
    assert_eq!(be.ball.velocity, Vec2 { x: 75, y: 50 });
}

#[test]
fn initial_scoreboard_is_zero() {
    let s = scoreboard();
    assert_eq!(s.score_left, 0);
    assert_eq!(s.score_right, 0);
}

#[test]
fn paddle_moves_by_axis_times_speed() {
    let (left, _) = paddles();
    let mut pe = left;
    move_paddle(&mut pe, 1000, 1);
    assert_eq!(pe.transform.y, 3072);
    move_paddle(&mut pe, -1000, 1);
    assert_eq!(pe.transform.y, 3000);
    move_paddle(&mut pe, -500, 1);
    assert_eq!(pe.transform.y, 2964);
    assert_eq!(pe.transform.x, 120);
}

#[test]
fn paddle_zero_axis_holds_still() {
    let (_, right) = paddles();
    let mut pe = right;
    move_paddle(&mut pe, 0, 1000);
    assert_eq!(pe.transform.y, 3000);
}

#[test]
fn paddle_stays_within_arena_for_any_axis_and_dt() {
    // the clamp range for the standard paddle height
    let lo = PADDLE_HEIGHT / 2;
    let hi = 6000 - PADDLE_HEIGHT / 2;
    let axes = [-1000i64, -750, -1, 0, 1, 333, 1000];
    let dts = [0i64, 1, 7, 60, 3600, 1_000_000];
    for &axis in &axes {
        for &dt in &dts {
            let (left, _) = paddles();
            let mut pe = left;
            move_paddle(&mut pe, axis, dt);
            assert!(lo <= pe.transform.y && pe.transform.y <= hi);
        }
    }
}

#[test]
fn paddle_clamps_at_top_and_bottom() {
    let (left, _) = paddles();
    let mut pe = left;
    move_paddle(&mut pe, 1000, 1_000_000);
    assert_eq!(pe.transform.y, 5520);
    move_paddle(&mut pe, -1000, 1_000_000);
    assert_eq!(pe.transform.y, 480);
}

#[test]
fn paddle_system_leaves_ball_and_score_alone() {
    let mut w = world_with_ball(ball_at(3000, 3000, 75, 50));
    paddle_system(&mut w, 1000, -1000, 1);
    assert_eq!(w.left_paddle.transform.y, 3072);
    assert_eq!(w.right_paddle.transform.y, 2928);
    assert_eq!(w.ball_slot, Some(ball_at(3000, 3000, 75, 50)));
    assert_eq!(w.scoreboard.score_left, 0);
}

#[test]
fn ball_motion_is_exact_integration() {
    let mut be = ball_at(3000, 3000, 75, 50);
    move_ball(&mut be, 1);
    assert_eq!(be.transform.x, 3075);
    assert_eq!(be.transform.y, 3050);
    move_ball(&mut be, 3);
    assert_eq!(be.transform.x, 3300);
    assert_eq!(be.transform.y, 3200);
    assert_eq!(be.ball.velocity, Vec2 { x: 75, y: 50 });
}

#[test]
fn ball_motion_zero_dt_is_still() {
    let mut be = ball_at(123, 456, -75, 50);
    move_ball(&mut be, 0);
    assert_eq!(be.transform.x, 123);
    assert_eq!(be.transform.y, 456);
}

#[test]
fn ball_motion_applies_no_clamping() {
    // boundary handling is the winner system's job, not motion's
    let mut be = ball_at(5990, 3000, 75, 0);
    move_ball(&mut be, 2);
    assert_eq!(be.transform.x, 6140);
    assert!(be.transform.x > ARENA_WIDTH);
}

#[test]
fn ball_motion_system_without_ball_is_noop() {
    let mut w = World::new();
    ball_motion_system(&mut w, 17);
    assert_eq!(w.ball_slot, None);
    assert_eq!(w.left_paddle, paddles().0);
}

#[test]
fn wall_bounce_flips_vy_only_once_while_overlap_persists() {
    // slow climb into the top wall: the overlap lasts three frames, the
    // sign of vy flips exactly once
    let mut w = world_with_ball(ball_at(3000, 5885, 0, 2));
    let mut flips = 0;
    let mut last_vy = 2i64;
    for _ in 0..3 {
        ball_motion_system(&mut w, 1);
        bounce_system(&mut w);
        let be = w.ball_slot.unwrap();
        assert!(be.transform.y + be.ball.radius >= 6000, "overlap should persist");
        if be.ball.velocity.y != last_vy {
            flips += 1;
            last_vy = be.ball.velocity.y;
        }
    }
    assert_eq!(flips, 1);
    assert_eq!(last_vy, -2);
}

#[test]
fn bottom_wall_bounce_flips_vy_upward() {
    let mut w = world_with_ball(ball_at(3000, 115, 0, -50));
    bounce_system(&mut w);
    assert_eq!(w.ball_slot.unwrap().ball.velocity.y, 50);
}

#[test]
fn wall_bounce_ignores_ball_moving_away() {
    let mut w = world_with_ball(ball_at(3000, 5900, 0, -50));
    bounce_system(&mut w);
    assert_eq!(w.ball_slot.unwrap().ball.velocity.y, -50);
}

#[test]
fn paddle_bounce_flips_vx_moving_toward() {
    // overlapping the left paddle, moving left
    let mut w = world_with_ball(ball_at(300, 3000, -75, 0));
    bounce_system(&mut w);
    assert_eq!(w.ball_slot.unwrap().ball.velocity.x, 75);
}

#[test]
fn paddle_bounce_skips_ball_moving_away() {
    // still overlapping the left paddle right after a bounce: not re-negated
    let mut w = world_with_ball(ball_at(300, 3000, -75, 0));
    bounce_system(&mut w);
    bounce_system(&mut w);
    assert_eq!(w.ball_slot.unwrap().ball.velocity.x, 75);
}

#[test]
fn paddle_bounce_misses_ball_outside_reach() {
    // level with the paddle's lane but vertically clear of it
    let mut w = world_with_ball(ball_at(300, 4000, -75, 0));
    bounce_system(&mut w);
    assert_eq!(w.ball_slot.unwrap().ball.velocity.x, -75);
}

#[test]
fn corner_contact_flips_both_components_in_one_pass() {
    // touching the top wall and the right paddle at once
    let mut w = world_with_ball(ball_at(5700, 5900, 75, 50));
    w.right_paddle.transform.y = 5520; // paddle raised to its top stop
    bounce_system(&mut w);
    let be = w.ball_slot.unwrap();
    assert_eq!(be.ball.velocity, Vec2 { x: -75, y: -50 });
}

#[test]
fn bounce_changes_no_position() {
    let mut w = world_with_ball(ball_at(300, 3000, -75, 50));
    bounce_system(&mut w);
    let be = w.ball_slot.unwrap();
    assert_eq!(be.transform, Transform { x: 300, y: 3000 });
}

#[test]
fn exit_left_scores_right_and_destroys_ball() {
    let mut w = world_with_ball(ball_at(-1, 3000, -75, 0));
    let mut text = ScoreText::new();
    let scored = winner_system(&mut w, &mut text);
    assert_eq!(scored, Some(Side::Right));
    assert_eq!(w.scoreboard.score_right, 1);
    assert_eq!(w.scoreboard.score_left, 0);
    assert_eq!(w.ball_slot, None);
    assert_eq!(text.p2_score, b"1".to_vec());
    assert_eq!(text.p1_score, b"0".to_vec());
}

#[test]
fn exit_right_scores_left_and_destroys_ball() {
    let mut w = world_with_ball(ball_at(6001, 3000, 75, 0));
    let mut text = ScoreText::new();
    let scored = winner_system(&mut w, &mut text);
    assert_eq!(scored, Some(Side::Left));
    assert_eq!(w.scoreboard.score_left, 1);
    assert_eq!(w.scoreboard.score_right, 0);
    assert_eq!(w.ball_slot, None);
    assert_eq!(text.p1_score, b"1".to_vec());
}

#[test]
fn ball_on_the_field_scores_nobody() {
    // the edges themselves are still in play: crossing is strict
    for x in [0i64, 1, 3000, 5999, 6000] {
        let mut w = world_with_ball(ball_at(x, 3000, 75, 0));
        let mut text = ScoreText::new();
        let scored = winner_system(&mut w, &mut text);
        assert_eq!(scored, None);
        assert_eq!(w.scoreboard.score_left, 0);
        assert_eq!(w.scoreboard.score_right, 0);
        assert!(w.ball_slot.is_some());
    }
}

#[test]
fn winner_without_ball_is_noop() {
    let mut w = World::new();
    w.scoreboard.score_left = 3;
    w.scoreboard.score_right = 5;
    let mut text = ScoreText::new();
    let scored = winner_system(&mut w, &mut text);
    assert_eq!(scored, None);
    assert_eq!(w.scoreboard.score_left, 3);
    assert_eq!(w.scoreboard.score_right, 5);
    assert_eq!(w.ball_slot, None);
}

#[test]
fn spawn_timer_fires_exactly_once_per_arming() {
    let mut pong = Pong::default();
    assert_eq!(pong.ball_spawn_timer, None);
    assert!(!pong.update(1000)); // nothing armed, nothing due
    pong.on_start();
    assert_eq!(pong.ball_spawn_timer, Some(120));
    assert!(!pong.update(119));
    assert_eq!(pong.ball_spawn_timer, Some(1));
    assert!(pong.update(1));
    assert_eq!(pong.ball_spawn_timer, None);
    assert!(!pong.update(1));
}

#[test]
fn score_digits_render_decimal() {
    assert_eq!(score_digits(0), b"0".to_vec());
    assert_eq!(score_digits(7), b"7".to_vec());
    assert_eq!(score_digits(10), b"10".to_vec());
    assert_eq!(score_digits(99), b"99".to_vec());
    assert_eq!(score_digits(120), b"120".to_vec());
    assert_eq!(score_digits(i32::MAX), b"2147483647".to_vec());
}

#[test]
fn score_text_updates_only_the_scoring_side() {
    let mut text = ScoreText::new();
    text.set_score(Side::Right, 12);
    assert_eq!(text.p1_score, b"0".to_vec());
    assert_eq!(text.p2_score, b"12".to_vec());
    text.set_score(Side::Left, 3);
    assert_eq!(text.p1_score, b"3".to_vec());
    assert_eq!(text.p2_score, b"12".to_vec());
}
