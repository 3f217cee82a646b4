use pong_game::geometry::{
    clamp, Point, Velocity, BALL_SIZE_HALF, BALL_SPEED, PADDING, RACKET_HEIGHT_HALF,
    RACKET_WIDTH_HALF, UNITS_PER_PIXEL,
};
use pong_game::physics::{
    handle_ball_on_y_borders, intersect_player, move_racket, randomize_vec, set_direction,
    set_score,
};
use pong_game::state::{MainState, TickInput};

fn px(v: i64) -> i64 {
    v * UNITS_PER_PIXEL
}

fn input(dt: i64, w: i64, h: i64) -> TickInput {
    TickInput {
        dt,
        screen_width: w,
        screen_height: h,
        p1_up: false,
        p1_down: false,
        p2_up: false,
        p2_down: false,
    }
}

fn state_with_ball(ball_pos: Point, ball_vel: Velocity) -> MainState {
    MainState {
        player_1_pos: Point { x: px(30), y: px(300) },
        player_2_pos: Point { x: px(770), y: px(300) },
        ball_pos,
        ball_vel,
        player_1_score: 3,
        player_2_score: 5,
    }
}

#[test]
fn clamp_keeps_values_in_range() {
    let mut v: i64 = -4;
    clamp(&mut v, 0, 10);
    assert_eq!(v, 0);
    let mut v: i64 = 14;
    clamp(&mut v, 0, 10);
    assert_eq!(v, 10);
    let mut v: i64 = 7;
    clamp(&mut v, 0, 10);
    assert_eq!(v, 7);
}

#[test]
fn clamp_with_crossed_bounds_prefers_low_then_high() {
    let mut v: i64 = 1;
    clamp(&mut v, 5, 3);
    assert_eq!(v, 5);
    let mut v: i64 = 6;
    clamp(&mut v, 5, 3);
    assert_eq!(v, 3);
}

#[test]
fn up_key_moves_paddle_up_by_speed_times_dt() {
    let mut pos = Point { x: px(30), y: px(300) };
    move_racket(&mut pos, true, 1, 100_000, px(600));
    assert_eq!(pos, Point { x: px(30), y: px(250) });
}

#[test]
fn down_key_moves_paddle_down() {
    let mut pos = Point { x: px(30), y: px(300) };
    move_racket(&mut pos, true, -1, 100_000, px(600));
    assert_eq!(pos.y, px(350));
}

#[test]
fn released_key_leaves_paddle_in_place() {
    let mut pos = Point { x: px(30), y: px(300) };
    move_racket(&mut pos, false, 1, 100_000, px(600));
    assert_eq!(pos.y, px(300));
}

#[test]
fn paddle_is_clamped_at_top_and_bottom() {
    let mut pos = Point { x: px(30), y: px(60) };
    move_racket(&mut pos, true, 1, 100_000, px(600));
    assert_eq!(pos.y, RACKET_HEIGHT_HALF);
    let mut pos = Point { x: px(30), y: px(540) };
    move_racket(&mut pos, true, -1, 100_000, px(600));
    assert_eq!(pos.y, px(600) - RACKET_HEIGHT_HALF);
}

#[test]
fn paddle_outside_range_is_clamped_without_key() {
    let mut pos = Point { x: px(30), y: px(900) };
    move_racket(&mut pos, false, 1, 0, px(600));
    assert_eq!(pos.y, px(550));
}

#[test]
fn ball_half_pixel_inside_left_edge_does_not_score() {
    let mut pos = Point { x: UNITS_PER_PIXEL / 2, y: px(300) };
    let mut vel = Velocity { x: -500, y: 0 };
    let mut score: u64 = 7;
    // The ball is half a pixel inside, so nothing happens yet.
    set_score(&mut pos, &mut vel, &mut score, true, px(800), px(600), true, true);
    assert_eq!(score, 7);
    assert_eq!(pos, Point { x: UNITS_PER_PIXEL / 2, y: px(300) });
    assert_eq!(vel, Velocity { x: -500, y: 0 });
}

#[test]
fn ball_leaving_left_edge_scores_for_right_player() {
    let mut s = state_with_ball(Point { x: UNITS_PER_PIXEL / 2, y: px(300) }, Velocity {
        x: -500,
        y: 0,
    });
    // One frame carries the ball past the left edge...
    s.tick(&input(16_667, px(800), px(600)), true, true);
    assert!(s.ball_pos.x < 0);
    assert_eq!(s.player_2_score, 5);
    // ...and the next scoring check gives the right player the point.
    s.update(&input(0, px(800), px(600)));
    assert_eq!(s.player_2_score, 6);
    assert_eq!(s.player_1_score, 3);
    assert_eq!(s.ball_pos, Point { x: px(400), y: px(300) });
    assert_eq!(s.ball_vel.x.abs(), 500);
    assert_eq!(s.ball_vel.y.abs(), 500);
}

#[test]
fn ball_past_left_edge_resets_to_center() {
    let mut pos = Point { x: -UNITS_PER_PIXEL / 2, y: px(300) };
    let mut vel = Velocity { x: -500, y: 0 };
    let mut score: u64 = 7;
    set_score(&mut pos, &mut vel, &mut score, true, px(800), px(600), false, true);
    assert_eq!(score, 8);
    assert_eq!(pos, Point { x: px(400), y: px(300) });
    assert_eq!(vel, Velocity { x: -500, y: 500 });
}

#[test]
fn ball_past_right_edge_resets_to_center() {
    let mut pos = Point { x: px(801), y: px(20) };
    let mut vel = Velocity { x: 500, y: -500 };
    let mut score: u64 = 0;
    set_score(&mut pos, &mut vel, &mut score, false, px(800), px(600), true, false);
    assert_eq!(score, 1);
    assert_eq!(pos, Point { x: px(400), y: px(300) });
    assert_eq!(vel, Velocity { x: 500, y: -500 });
}

#[test]
fn right_check_ignores_ball_past_left_edge() {
    let mut pos = Point { x: -px(3), y: px(20) };
    let mut vel = Velocity { x: -500, y: -500 };
    let mut score: u64 = 2;
    set_score(&mut pos, &mut vel, &mut score, false, px(800), px(600), true, true);
    assert_eq!(score, 2);
    assert_eq!(pos.x, -px(3));
}

#[test]
fn tick_with_ball_past_left_edge_scores_for_right_player() {
    let mut s = state_with_ball(Point { x: -UNITS_PER_PIXEL / 2, y: px(300) }, Velocity {
        x: -500,
        y: 0,
    });
    s.update(&input(0, px(800), px(600)));
    assert_eq!(s.player_2_score, 6);
    assert_eq!(s.player_1_score, 3);
    assert_eq!(s.ball_pos, Point { x: px(400), y: px(300) });
    assert_eq!(s.ball_vel.x.abs(), 500);
    assert_eq!(s.ball_vel.y.abs(), 500);
}

#[test]
fn tick_with_ball_past_right_edge_scores_for_left_player() {
    let mut s = state_with_ball(Point { x: px(801), y: px(300) }, Velocity { x: 500, y: 500 });
    s.tick(&input(0, px(800), px(600)), false, false);
    assert_eq!(s.player_1_score, 4);
    assert_eq!(s.player_2_score, 5);
    assert_eq!(s.ball_pos, Point { x: px(400), y: px(300) });
    assert_eq!(s.ball_vel, Velocity { x: -500, y: -500 });
}

#[test]
fn tick_after_reset_moves_ball_from_center() {
    let mut s = state_with_ball(Point { x: -1, y: px(300) }, Velocity { x: -500, y: 500 });
    s.tick(&input(10_000, px(800), px(600)), true, true);
    assert_eq!(s.player_2_score, 6);
    assert_eq!(s.ball_pos, Point { x: px(405), y: px(305) });
}

#[test]
fn ball_bounces_off_top_wall() {
    let mut pos = Point { x: px(400), y: px(2) };
    let mut vel = Velocity { x: 500, y: -100 };
    handle_ball_on_y_borders(&mut pos, &mut vel, px(600));
    assert_eq!(pos, Point { x: px(400), y: px(15) });
    assert_eq!(vel, Velocity { x: 500, y: 100 });
}

#[test]
fn ball_bounces_off_bottom_wall() {
    let mut pos = Point { x: px(400), y: px(599) };
    let mut vel = Velocity { x: 500, y: 500 };
    handle_ball_on_y_borders(&mut pos, &mut vel, px(600));
    assert_eq!(pos.y, px(585));
    assert_eq!(vel.y, -500);
}

#[test]
fn ball_inside_field_is_not_bounced() {
    let mut pos = Point { x: px(400), y: px(300) };
    let mut vel = Velocity { x: 500, y: -500 };
    handle_ball_on_y_borders(&mut pos, &mut vel, px(600));
    assert_eq!(pos.y, px(300));
    assert_eq!(vel.y, -500);
}

#[test]
fn ball_against_top_wall_moving_down_keeps_direction() {
    let mut pos = Point { x: px(400), y: px(5) };
    let mut vel = Velocity { x: 500, y: 500 };
    handle_ball_on_y_borders(&mut pos, &mut vel, px(600));
    assert_eq!(pos.y, BALL_SIZE_HALF);
    assert_eq!(vel.y, 500);
}

#[test]
fn overlapping_paddle_reverses_horizontal_velocity() {
    let paddle = Point { x: px(30), y: px(300) };
    let ball = Point { x: px(50), y: px(320) };
    let mut vel = Velocity { x: -500, y: 500 };
    intersect_player(&paddle, &ball, &mut vel);
    assert_eq!(vel, Velocity { x: 500, y: 500 });
}

#[test]
fn ball_lingering_in_paddle_is_reversed_every_time() {
    let paddle = Point { x: px(30), y: px(300) };
    let ball = Point { x: px(50), y: px(320) };
    let mut vel = Velocity { x: -500, y: 500 };
    intersect_player(&paddle, &ball, &mut vel);
    intersect_player(&paddle, &ball, &mut vel);
    assert_eq!(vel, Velocity { x: -500, y: 500 });
}

#[test]
fn touching_paddle_is_no_overlap() {
    let paddle = Point { x: px(30), y: px(300) };
    // Ball's left edge at 40, the paddle's right edge at 40.
    let ball = Point { x: px(55), y: px(300) };
    let mut vel = Velocity { x: -500, y: 500 };
    intersect_player(&paddle, &ball, &mut vel);
    assert_eq!(vel.x, -500);
    // Ball's top edge at 350, the paddle's bottom edge at 350.
    let ball = Point { x: px(30), y: px(365) };
    intersect_player(&paddle, &ball, &mut vel);
    assert_eq!(vel.x, -500);
}

#[test]
fn far_ball_is_not_reversed() {
    let paddle = Point { x: px(30), y: px(300) };
    let ball = Point { x: px(400), y: px(300) };
    let mut vel = Velocity { x: 500, y: -500 };
    intersect_player(&paddle, &ball, &mut vel);
    assert_eq!(vel, Velocity { x: 500, y: -500 });
}

#[test]
fn set_direction_picks_signs() {
    let mut vel = Velocity { x: 0, y: 0 };
    set_direction(&mut vel, 500, 300, false, true);
    assert_eq!(vel, Velocity { x: -500, y: 300 });
    set_direction(&mut vel, 500, 300, true, false);
    assert_eq!(vel, Velocity { x: 500, y: -300 });
}

#[test]
fn randomize_vec_keeps_magnitudes() {
    for _ in 0..50 {
        let mut vel = Velocity { x: 0, y: 0 };
        randomize_vec(&mut vel, 500, 200);
        assert_eq!(vel.x.abs(), 500);
        assert_eq!(vel.y.abs(), 200);
    }
}

#[test]
fn new_places_paddles_and_ball() {
    let s = MainState::new(px(800), px(600));
    assert_eq!(s.player_1_pos, Point { x: RACKET_WIDTH_HALF + PADDING, y: px(300) });
    assert_eq!(s.player_2_pos, Point { x: px(770), y: px(300) });
    assert_eq!(s.ball_pos, Point { x: px(400), y: px(300) });
    assert_eq!(s.ball_vel.x.abs(), BALL_SPEED);
    assert_eq!(s.ball_vel.y.abs(), BALL_SPEED);
    assert_eq!(s.player_1_score, 0);
    assert_eq!(s.player_2_score, 0);
    assert!(s.is_valid());
}

#[test]
fn both_keys_held_cancel_out() {
    let mut s = state_with_ball(Point { x: px(400), y: px(300) }, Velocity { x: 500, y: 500 });
    let mut inp = input(100_000, px(800), px(600));
    inp.p1_up = true;
    inp.p1_down = true;
    inp.p2_up = true;
    s.tick(&inp, true, true);
    assert_eq!(s.player_1_pos.y, px(300));
    assert_eq!(s.player_2_pos.y, px(250));
}

#[test]
fn paddles_stay_on_screen_through_many_ticks() {
    let mut s = MainState::new(px(800), px(600));
    let mut inp = input(16_667, px(800), px(600));
    inp.p1_up = true;
    inp.p2_down = true;
    for _ in 0..200 {
        s.update(&inp);
        assert!(s.player_1_pos.y >= RACKET_HEIGHT_HALF);
        assert!(s.player_2_pos.y <= px(600) - RACKET_HEIGHT_HALF);
        assert!(s.ball_pos.y >= BALL_SIZE_HALF && s.ball_pos.y <= px(600) - BALL_SIZE_HALF);
        assert_eq!(s.ball_vel.x.abs(), BALL_SPEED);
        assert_eq!(s.ball_vel.y.abs(), BALL_SPEED);
    }
    assert_eq!(s.player_1_pos.y, RACKET_HEIGHT_HALF);
    assert_eq!(s.player_2_pos.y, px(550));
}

#[test]
fn ball_moves_and_bounces_in_one_tick() {
    let mut s = state_with_ball(Point { x: px(400), y: px(20) }, Velocity { x: 500, y: -500 });
    s.tick(&input(20_000, px(800), px(600)), true, true);
    assert_eq!(s.ball_pos, Point { x: px(410), y: px(15) });
    assert_eq!(s.ball_vel, Velocity { x: 500, y: 500 });
    assert_eq!(s.player_1_score, 3);
    assert_eq!(s.player_2_score, 5);
}

#[test]
fn tick_reverses_ball_hitting_left_paddle() {
    let mut s = state_with_ball(Point { x: px(60), y: px(300) }, Velocity { x: -500, y: 500 });
    s.tick(&input(20_000, px(800), px(600)), true, true);
    assert_eq!(s.ball_pos, Point { x: px(50), y: px(310) });
    assert_eq!(s.ball_vel, Velocity { x: 500, y: 500 });
}

#[test]
fn validity_checks() {
    assert!(input(16_000, px(800), px(600)).is_valid());
    assert!(!input(-1, px(800), px(600)).is_valid());
    assert!(!input(0, -1, px(600)).is_valid());
    let mut s = MainState::new(px(800), px(600));
    assert!(s.is_valid());
    s.player_1_score = u64::MAX;
    assert!(!s.is_valid());
    let mut s = MainState::new(px(800), px(600));
    s.ball_vel.x = 501;
    assert!(!s.is_valid());
}
