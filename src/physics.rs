//! Paddle movement, ball bounces, paddle hits and scoring.
use vstd::prelude::*;

use crate::geometry::{
    abs, clamp, clamped, Point, Velocity, BALL_SIZE, BALL_SIZE_HALF, BALL_SPEED,
    MAX_DT, MAX_EXTENT, PLAYER_SPEED, RACKET_HEIGHT, RACKET_HEIGHT_HALF, RACKET_WIDTH_HALF,
};
use crate::random::coin_flip;

verus! {

/// Where a paddle at height `y` ends up after one key of one tick: pressed,
/// it moves by `y_dir * PLAYER_SPEED * dt` upwards (`y` decreases for
/// `y_dir == 1`), and then it is clamped so that it stays on a screen of
/// height `screen_h`.
pub open spec fn racket_y_after(y: int, pressed: bool, y_dir: int, dt: int, screen_h: int) -> int {
    let moved = if pressed {
        y - y_dir * PLAYER_SPEED * dt
    } else {
        y
    };
    clamped(moved, RACKET_HEIGHT_HALF as int, screen_h - RACKET_HEIGHT_HALF)
}

pub open spec fn valid_dt(dt: int) -> bool {
    0 <= dt <= MAX_DT
}

pub open spec fn valid_extent(e: int) -> bool {
    0 <= e <= MAX_EXTENT
}

proof fn lemma_step_bound(dir: int, speed: int, dt: int)
    requires
        -1 <= dir <= 1,
        0 <= speed <= BALL_SPEED,
        0 <= dt <= MAX_DT,
    ensures
        -BALL_SPEED * MAX_DT <= dir * speed * dt <= BALL_SPEED * MAX_DT,
{
    assert(-BALL_SPEED * MAX_DT <= dir * speed * dt <= BALL_SPEED * MAX_DT) by (nonlinear_arith)
        requires
            -1 <= dir <= 1,
            0 <= speed <= BALL_SPEED,
            0 <= dt <= MAX_DT,
    ;
}

/// Moves a paddle for one key: upwards by `y_dir * PLAYER_SPEED * dt` when
/// the key is held, then clamps it into `[RACKET_HEIGHT_HALF, screen_h -
/// RACKET_HEIGHT_HALF]`. The clamp applies whether or not the key is held.
pub fn move_racket(pos: &mut Point, pressed: bool, y_dir: i64, dt: i64, screen_h: i64)
    requires
        old(pos).wf(),
        -1 <= y_dir <= 1,
        valid_dt(dt as int),
        valid_extent(screen_h as int),
    ensures
        final(pos).x == old(pos).x,
        final(pos).y == racket_y_after(
            old(pos).y as int,
            pressed,
            y_dir as int,
            dt as int,
            screen_h as int,
        ),
        final(pos).wf(),
        screen_h >= RACKET_HEIGHT ==> RACKET_HEIGHT_HALF <= final(pos).y <= screen_h
            - RACKET_HEIGHT_HALF,
{
    if pressed {
        proof {
            lemma_step_bound(y_dir as int, PLAYER_SPEED as int, dt as int);
        }
        pos.y = pos.y - y_dir * PLAYER_SPEED * dt;
    }
    clamp(&mut pos.y, RACKET_HEIGHT_HALF, screen_h - RACKET_HEIGHT_HALF);
}

/// The velocity whose components have magnitudes `x` and `y` and whose
/// signs are positive where `x_positive`, `y_positive` hold.
pub open spec fn directed(x: int, y: int, x_positive: bool, y_positive: bool) -> Velocity {
    Velocity {
        x: (if x_positive { x } else { -x }) as i64,
        y: (if y_positive { y } else { -y }) as i64,
    }
}

/// Gives `*vec` the magnitudes `x` and `y` on its two axes, with the signs
/// that `x_positive` and `y_positive` choose.
pub fn set_direction(vec: &mut Velocity, x: i64, y: i64, x_positive: bool, y_positive: bool)
    requires
        0 <= x,
        0 <= y,
    ensures
        *final(vec) == directed(x as int, y as int, x_positive, y_positive),
{
    vec.x = if x_positive { x } else { -x };
    vec.y = if y_positive { y } else { -y };
}

/// Gives `*vec` the magnitudes `x` and `y` on its two axes, each with a sign
/// drawn at random, independently and with even odds.
pub fn randomize_vec(vec: &mut Velocity, x: i64, y: i64)
    requires
        0 <= x,
        0 <= y,
    ensures
        abs(final(vec).x as int) == x,
        abs(final(vec).y as int) == y,
{
    let x_positive = coin_flip();
    let y_positive = coin_flip();
    set_direction(vec, x, y, x_positive, y_positive);
}

/// Whether the ball has left the field past the left boundary (`x < 0`,
/// when `left_boundary`) or past the right one (`x > screen_w`).
pub open spec fn exits(x: int, left_boundary: bool, screen_w: int) -> bool {
    if left_boundary {
        x < 0
    } else {
        x > screen_w
    }
}

/// The centre of a `screen_w` by `screen_h` screen.
pub open spec fn center(screen_w: int, screen_h: int) -> Point {
    Point { x: (screen_w / 2) as i64, y: (screen_h / 2) as i64 }
}

/// Scores a point when the ball has left the field past one boundary: past
/// the left one (`x < 0`) when `left_boundary`, else past the right one
/// (`x > screen_w`). The point goes to `*player_score`, which the caller
/// picks as the score of the player on the other side. On a point the ball
/// goes back to the centre of the screen and takes speed `BALL_SPEED` on each
/// axis, with the signs `x_positive` and `y_positive`. Otherwise nothing
/// changes.
pub fn set_score(
    ball_pos: &mut Point,
    ball_vel: &mut Velocity,
    player_score: &mut u64,
    left_boundary: bool,
    screen_w: i64,
    screen_h: i64,
    x_positive: bool,
    y_positive: bool,
)
    requires
        *old(player_score) < u64::MAX,
        valid_extent(screen_w as int),
        valid_extent(screen_h as int),
    ensures
        exits(old(ball_pos).x as int, left_boundary, screen_w as int) ==> {
            &&& *final(player_score) == *old(player_score) + 1
            &&& *final(ball_pos) == center(screen_w as int, screen_h as int)
            &&& *final(ball_vel) == directed(
                BALL_SPEED as int,
                BALL_SPEED as int,
                x_positive,
                y_positive,
            )
        },
        !exits(old(ball_pos).x as int, left_boundary, screen_w as int) ==> {
            &&& *final(player_score) == *old(player_score)
            &&& *final(ball_pos) == *old(ball_pos)
            &&& *final(ball_vel) == *old(ball_vel)
        },
{
    let out = if left_boundary {
        ball_pos.x < 0
    } else {
        ball_pos.x > screen_w
    };
    if out {
        ball_pos.x = screen_w / 2;
        ball_pos.y = screen_h / 2;
        set_direction(ball_vel, BALL_SPEED, BALL_SPEED, x_positive, y_positive);
        *player_score += 1;
    }
}

/// The ball's height after the wall check: kept at least `BALL_SIZE_HALF`
/// from the top edge, else at most that far from the bottom edge.
pub open spec fn ball_y_after_walls(y: int, screen_h: int) -> int {
    clamped(y, BALL_SIZE_HALF as int, screen_h - BALL_SIZE_HALF)
}

/// The ball's vertical velocity after the wall check: downwards (positive)
/// after touching the top, upwards after touching the bottom, else as it was.
pub open spec fn ball_vy_after_walls(y: int, vy: int, screen_h: int) -> int {
    if y < BALL_SIZE_HALF {
        abs(vy)
    } else if y > screen_h - BALL_SIZE_HALF {
        -abs(vy)
    } else {
        vy
    }
}

/// Bounces the ball off the top and bottom walls: a ball whose top edge is
/// above the screen is put back against the top and sent downwards; one whose
/// bottom edge is below the screen is put back against the bottom and sent
/// upwards. Horizontal position and velocity are left alone.
pub fn handle_ball_on_y_borders(ball_pos: &mut Point, ball_vel: &mut Velocity, screen_h: i64)
    requires
        old(ball_vel).y > i64::MIN,
        valid_extent(screen_h as int),
    ensures
        final(ball_pos).x == old(ball_pos).x,
        final(ball_pos).y == ball_y_after_walls(old(ball_pos).y as int, screen_h as int),
        final(ball_vel).x == old(ball_vel).x,
        final(ball_vel).y == ball_vy_after_walls(
            old(ball_pos).y as int,
            old(ball_vel).y as int,
            screen_h as int,
        ),
        abs(final(ball_vel).y as int) == abs(old(ball_vel).y as int),
        screen_h >= BALL_SIZE ==> BALL_SIZE_HALF <= final(ball_pos).y <= screen_h
            - BALL_SIZE_HALF,
{
    let mag = if ball_vel.y < 0 {
        -ball_vel.y
    } else {
        ball_vel.y
    };
    if ball_pos.y < BALL_SIZE_HALF {
        ball_pos.y = BALL_SIZE_HALF;
        ball_vel.y = mag;
    } else if ball_pos.y > screen_h - BALL_SIZE_HALF {
        ball_pos.y = screen_h - BALL_SIZE_HALF;
        ball_vel.y = -mag;
    }
}

/// Whether the ball's box (side `BALL_SIZE`, centred on `ball`) and a
/// paddle's box (`RACKET_WIDTH` by `RACKET_HEIGHT`, centred on `player`)
/// overlap; boxes that only touch do not.
pub open spec fn overlaps(player: Point, ball: Point) -> bool {
    &&& ball.x - BALL_SIZE_HALF < player.x + RACKET_WIDTH_HALF
    &&& ball.x + BALL_SIZE_HALF > player.x - RACKET_WIDTH_HALF
    &&& ball.y - BALL_SIZE_HALF < player.y + RACKET_HEIGHT_HALF
    &&& ball.y + BALL_SIZE_HALF > player.y - RACKET_HEIGHT_HALF
}

/// Reverses the ball's horizontal velocity when the ball overlaps the paddle
/// at `player_pos`. The check has no memory: a ball that stays inside a
/// paddle is reversed again on every call.
pub fn intersect_player(player_pos: &Point, ball_pos: &Point, ball_vel: &mut Velocity)
    requires
        player_pos.wf(),
        ball_pos.wf(),
        old(ball_vel).x > i64::MIN,
    ensures
        final(ball_vel).x == if overlaps(*player_pos, *ball_pos) {
            -old(ball_vel).x
        } else {
            old(ball_vel).x as int
        },
        final(ball_vel).y == old(ball_vel).y,
        abs(final(ball_vel).x as int) == abs(old(ball_vel).x as int),
{
    let hit = ball_pos.x - BALL_SIZE_HALF < player_pos.x + RACKET_WIDTH_HALF
        && ball_pos.x + BALL_SIZE_HALF > player_pos.x - RACKET_WIDTH_HALF
        && ball_pos.y - BALL_SIZE_HALF < player_pos.y + RACKET_HEIGHT_HALF
        && ball_pos.y + BALL_SIZE_HALF > player_pos.y - RACKET_HEIGHT_HALF;
    if hit {
        ball_vel.x = -ball_vel.x;
    }
}

} // verus!
