//! The match: two paddles, the ball and both scores, advanced one tick at a
//! time.
use vstd::prelude::*;

use crate::geometry::{
    abs, in_coord_range, Point, Velocity, BALL_SIZE, BALL_SIZE_HALF, BALL_SPEED, MAX_DT,
    MAX_EXTENT, PADDING, RACKET_HEIGHT, RACKET_HEIGHT_HALF, RACKET_WIDTH_HALF,
};
use crate::physics::{
    ball_vy_after_walls, ball_y_after_walls, center, directed, exits, handle_ball_on_y_borders,
    intersect_player, move_racket, overlaps, racket_y_after, randomize_vec, set_score,
    valid_dt, valid_extent,
};
use crate::random::coin_flip;

verus! {

/// What one tick reads from the outside: the time since the previous tick,
/// the current screen size, and which of the four keys are held.
#[derive(Clone, Copy, Debug, PartialEq, Eq, Structural)]
pub struct TickInput {
    /// Microseconds since the previous tick.
    pub dt: i64,
    pub screen_width: i64,
    pub screen_height: i64,
    /// The left paddle's up key.
    pub p1_up: bool,
    /// The left paddle's down key.
    pub p1_down: bool,
    /// The right paddle's up key.
    pub p2_up: bool,
    /// The right paddle's down key.
    pub p2_down: bool,
}

impl TickInput {
    pub open spec fn wf(&self) -> bool {
        &&& valid_dt(self.dt as int)
        &&& valid_extent(self.screen_width as int)
        &&& valid_extent(self.screen_height as int)
    }

    /// Whether the tick's duration and screen size are within the accepted
    /// bounds.
    pub fn is_valid(&self) -> (r: bool)
        ensures
            r == self.wf(),
    {
        0 <= self.dt && self.dt <= MAX_DT && 0 <= self.screen_width && self.screen_width
            <= MAX_EXTENT && 0 <= self.screen_height && self.screen_height <= MAX_EXTENT
    }
}

/// The whole match. Player 1 is the left paddle, player 2 the right one.
#[derive(Clone, Copy, Debug, PartialEq, Eq, Structural)]
pub struct MainState {
    pub player_1_pos: Point,
    pub player_2_pos: Point,
    pub ball_pos: Point,
    pub ball_vel: Velocity,
    pub player_1_score: u64,
    pub player_2_score: u64,
}

/// A velocity no faster than the ball's speed moves the ball by at most
/// `BALL_SPEED * MAX_DT` in one tick.
proof fn lemma_velocity_step(v: int, dt: int)
    requires
        abs(v) <= BALL_SPEED,
        valid_dt(dt),
    ensures
        -BALL_SPEED * MAX_DT <= v * dt <= BALL_SPEED * MAX_DT,
{
    assert(-BALL_SPEED * MAX_DT <= v * dt <= BALL_SPEED * MAX_DT) by (nonlinear_arith)
        requires
            -BALL_SPEED <= v <= BALL_SPEED,
            0 <= dt <= MAX_DT,
    ;
}

/// After any tick on a screen at least `RACKET_HEIGHT` tall, each paddle's
/// centre lies in `[RACKET_HEIGHT_HALF, screen height - RACKET_HEIGHT_HALF]`.
pub proof fn lemma_paddles_stay_on_screen(
    s: MainState,
    input: TickInput,
    x_positive: bool,
    y_positive: bool,
)
    requires
        s.wf(),
        input.wf(),
        input.screen_height >= RACKET_HEIGHT,
    ensures
        RACKET_HEIGHT_HALF <= s.next(input, x_positive, y_positive).player_1_pos.y
            <= input.screen_height - RACKET_HEIGHT_HALF,
        RACKET_HEIGHT_HALF <= s.next(input, x_positive, y_positive).player_2_pos.y
            <= input.screen_height - RACKET_HEIGHT_HALF,
{
}

/// After any tick on a screen at least `BALL_SIZE` tall, the ball's centre
/// lies in `[BALL_SIZE_HALF, screen height - BALL_SIZE_HALF]`.
pub proof fn lemma_ball_stays_on_screen(
    s: MainState,
    input: TickInput,
    x_positive: bool,
    y_positive: bool,
)
    requires
        s.wf(),
        input.wf(),
        input.screen_height >= BALL_SIZE,
    ensures
        BALL_SIZE_HALF <= s.next(input, x_positive, y_positive).ball_pos.y <= input.screen_height
            - BALL_SIZE_HALF,
{
}

/// A ball that moves at the ball's speed on both axes still does so after a
/// tick: bounces and restarts change only signs.
pub proof fn lemma_ball_speed_kept(s: MainState, input: TickInput, x_positive: bool, y_positive: bool)
    requires
        s.wf(),
        input.wf(),
        s.ball_vel.at_ball_speed(),
    ensures
        s.next(input, x_positive, y_positive).ball_vel.at_ball_speed(),
{
}

/// A ball past the left boundary (`x < 0`) when a tick begins scores
/// exactly one point for the right player and none for the left one, and
/// the scoring check puts the ball at the exact centre of the screen with
/// speed `BALL_SPEED` on each axis.
pub proof fn lemma_left_exit_scores_for_right(
    s: MainState,
    input: TickInput,
    x_positive: bool,
    y_positive: bool,
)
    requires
        s.wf(),
        s.can_score(),
        input.wf(),
        s.ball_pos.x < 0,
    ensures
        s.next(input, x_positive, y_positive).player_2_score == s.player_2_score + 1,
        s.next(input, x_positive, y_positive).player_1_score == s.player_1_score,
        s.with_paddles_moved(input).with_scoring(input, x_positive, y_positive).ball_pos
            == center(input.screen_width as int, input.screen_height as int),
        s.with_paddles_moved(input).with_scoring(
            input,
            x_positive,
            y_positive,
        ).ball_vel.at_ball_speed(),
{
}

/// A ball past the right boundary (`x > screen width`) when a tick begins
/// scores exactly one point for the left player and none for the right one,
/// and the scoring check puts the ball at the exact centre of the screen with
/// speed `BALL_SPEED` on each axis.
pub proof fn lemma_right_exit_scores_for_left(
    s: MainState,
    input: TickInput,
    x_positive: bool,
    y_positive: bool,
)
    requires
        s.wf(),
        s.can_score(),
        input.wf(),
        s.ball_pos.x > input.screen_width,
    ensures
        s.next(input, x_positive, y_positive).player_1_score == s.player_1_score + 1,
        s.next(input, x_positive, y_positive).player_2_score == s.player_2_score,
        s.with_paddles_moved(input).with_scoring(input, x_positive, y_positive).ball_pos
            == center(input.screen_width as int, input.screen_height as int),
        s.with_paddles_moved(input).with_scoring(
            input,
            x_positive,
            y_positive,
        ).ball_vel.at_ball_speed(),
{
}

/// Scores never decrease, and a tick adds at most one point in all.
pub proof fn lemma_scores_grow_by_at_most_one(
    s: MainState,
    input: TickInput,
    x_positive: bool,
    y_positive: bool,
)
    requires
        s.wf(),
        s.can_score(),
        input.wf(),
    ensures
        s.next(input, x_positive, y_positive).player_1_score >= s.player_1_score,
        s.next(input, x_positive, y_positive).player_2_score >= s.player_2_score,
        s.next(input, x_positive, y_positive).player_1_score + s.next(
            input,
            x_positive,
            y_positive,
        ).player_2_score <= s.player_1_score + s.player_2_score + 1,
{
}

/// The left paddle's x for a screen of any width.
pub open spec fn left_racket_x() -> int {
    RACKET_WIDTH_HALF + PADDING
}

/// The right paddle's x on a screen `screen_w` wide.
pub open spec fn right_racket_x(screen_w: int) -> int {
    screen_w - RACKET_WIDTH_HALF - PADDING
}

impl MainState {
    /// Every coordinate is in range and neither velocity component is faster
    /// than the ball's speed.
    pub open spec fn wf(&self) -> bool {
        &&& self.player_1_pos.wf()
        &&& self.player_2_pos.wf()
        &&& self.ball_pos.wf()
        &&& self.ball_vel.wf()
    }

    /// Neither score is at the largest value its type holds, so either can
    /// take one more point.
    pub open spec fn can_score(&self) -> bool {
        self.player_1_score < u64::MAX && self.player_2_score < u64::MAX
    }

    /// Whether the state is well formed and both scores can still grow:
    /// what `tick` and `update` ask of the state they advance.
    pub fn is_valid(&self) -> (r: bool)
        ensures
            r == (self.wf() && self.can_score()),
    {
        self.player_1_pos.is_in_range() && self.player_2_pos.is_in_range()
            && self.ball_pos.is_in_range() && self.ball_vel.is_within_speed()
            && self.player_1_score < u64::MAX && self.player_2_score < u64::MAX
    }

    /// After the paddles have moved: each paddle takes its up key, then its
    /// down key, each step clamped into the screen.
    pub open spec fn with_paddles_moved(self, input: TickInput) -> MainState {
        let dt = input.dt as int;
        let h = input.screen_height as int;
        MainState {
            player_1_pos: Point {
                y: racket_y_after(
                    racket_y_after(self.player_1_pos.y as int, input.p1_up, 1, dt, h),
                    input.p1_down,
                    -1,
                    dt,
                    h,
                ) as i64,
                ..self.player_1_pos
            },
            player_2_pos: Point {
                y: racket_y_after(
                    racket_y_after(self.player_2_pos.y as int, input.p2_up, 1, dt, h),
                    input.p2_down,
                    -1,
                    dt,
                    h,
                ) as i64,
                ..self.player_2_pos
            },
            ..self
        }
    }

    /// After the scoring check: a ball past the left boundary gives the right
    /// player a point, one past the right boundary gives the left player a
    /// point; either way the ball restarts from the centre at full speed.
    pub open spec fn with_scoring(self, input: TickInput, x_positive: bool, y_positive: bool) -> MainState {
        let w = input.screen_width as int;
        let h = input.screen_height as int;
        if exits(self.ball_pos.x as int, true, w) {
            MainState {
                ball_pos: center(w, h),
                ball_vel: directed(BALL_SPEED as int, BALL_SPEED as int, x_positive, y_positive),
                player_2_score: (self.player_2_score + 1) as u64,
                ..self
            }
        } else if exits(self.ball_pos.x as int, false, w) {
            MainState {
                ball_pos: center(w, h),
                ball_vel: directed(BALL_SPEED as int, BALL_SPEED as int, x_positive, y_positive),
                player_1_score: (self.player_1_score + 1) as u64,
                ..self
            }
        } else {
            self
        }
    }

    /// After the ball has moved by its velocity times `dt`.
    pub open spec fn with_ball_moved(self, dt: int) -> MainState {
        MainState {
            ball_pos: Point {
                x: (self.ball_pos.x + self.ball_vel.x * dt) as i64,
                y: (self.ball_pos.y + self.ball_vel.y * dt) as i64,
            },
            ..self
        }
    }

    /// After the bounce off the top and bottom walls.
    pub open spec fn with_walls(self, screen_h: int) -> MainState {
        MainState {
            ball_pos: Point {
                y: ball_y_after_walls(self.ball_pos.y as int, screen_h) as i64,
                ..self.ball_pos
            },
            ball_vel: Velocity {
                y: ball_vy_after_walls(self.ball_pos.y as int, self.ball_vel.y as int, screen_h)
                    as i64,
                ..self.ball_vel
            },
            ..self
        }
    }

    /// After the paddle checks: the horizontal velocity is reversed once for
    /// each paddle that the ball overlaps.
    pub open spec fn with_paddle_hits(self) -> MainState {
        let vx1 = if overlaps(self.player_1_pos, self.ball_pos) {
            -self.ball_vel.x
        } else {
            self.ball_vel.x as int
        };
        let vx2 = if overlaps(self.player_2_pos, self.ball_pos) {
            -vx1
        } else {
            vx1
        };
        MainState { ball_vel: Velocity { x: vx2 as i64, ..self.ball_vel }, ..self }
    }

    /// The state after one tick, for the reset direction given by
    /// `x_positive` and `y_positive` (used only when a point is scored).
    pub open spec fn next(self, input: TickInput, x_positive: bool, y_positive: bool) -> MainState {
        self.with_paddles_moved(input).with_scoring(input, x_positive, y_positive).with_ball_moved(
            input.dt as int,
        ).with_walls(input.screen_height as int).with_paddle_hits()
    }

    /// A match at its start on a `screen_w` by `screen_h` screen: both paddles
    /// at mid-height, `PADDING` from their edges, the ball at the centre with
    /// speed `BALL_SPEED` on each axis in a random direction, and no points.
    pub fn new(screen_w: i64, screen_h: i64) -> (r: MainState)
        requires
            valid_extent(screen_w as int),
            valid_extent(screen_h as int),
        ensures
            r.player_1_pos == (Point { x: left_racket_x() as i64, y: (screen_h / 2) as i64 }),
            r.player_2_pos == (Point { x: right_racket_x(screen_w as int) as i64, y: (screen_h / 2) as i64 }),
            r.ball_pos == center(screen_w as int, screen_h as int),
            r.ball_vel.at_ball_speed(),
            r.player_1_score == 0,
            r.player_2_score == 0,
            r.wf(),
    {
        let screen_w_half = screen_w / 2;
        let screen_h_half = screen_h / 2;
        let mut ball_vel = Velocity { x: 0, y: 0 };
        randomize_vec(&mut ball_vel, BALL_SPEED, BALL_SPEED);
        MainState {
            player_1_pos: Point { x: RACKET_WIDTH_HALF + PADDING, y: screen_h_half },
            player_2_pos: Point { x: screen_w - RACKET_WIDTH_HALF - PADDING, y: screen_h_half },
            ball_pos: Point { x: screen_w_half, y: screen_h_half },
            ball_vel,
            player_1_score: 0,
            player_2_score: 0,
        }
    }

    /// The paddle stage of a tick.
    fn move_paddles(&mut self, input: &TickInput)
        requires
            old(self).wf(),
            input.wf(),
        ensures
            *final(self) == old(self).with_paddles_moved(*input),
            final(self).wf(),
    {
        let dt = input.dt;
        let h = input.screen_height;
        move_racket(&mut self.player_1_pos, input.p1_up, 1, dt, h);
        move_racket(&mut self.player_1_pos, input.p1_down, -1, dt, h);
        move_racket(&mut self.player_2_pos, input.p2_up, 1, dt, h);
        move_racket(&mut self.player_2_pos, input.p2_down, -1, dt, h);
    }

    /// The scoring stage of a tick; afterwards the ball lies between the
    /// two side boundaries.
    fn score(&mut self, input: &TickInput, x_positive: bool, y_positive: bool)
        requires
            old(self).wf(),
            old(self).can_score(),
            input.wf(),
        ensures
            *final(self) == old(self).with_scoring(*input, x_positive, y_positive),
            final(self).wf(),
            0 <= final(self).ball_pos.x <= input.screen_width,
    {
        let w = input.screen_width;
        let h = input.screen_height;
        set_score(
            &mut self.ball_pos,
            &mut self.ball_vel,
            &mut self.player_2_score,
            true,
            w,
            h,
            x_positive,
            y_positive,
        );
        set_score(
            &mut self.ball_pos,
            &mut self.ball_vel,
            &mut self.player_1_score,
            false,
            w,
            h,
            x_positive,
            y_positive,
        );
    }

    /// The ball's movement in a tick.
    fn move_ball(&mut self, dt: i64)
        requires
            old(self).wf(),
            valid_dt(dt as int),
            0 <= old(self).ball_pos.x <= MAX_EXTENT,
        ensures
            *final(self) == old(self).with_ball_moved(dt as int),
            final(self).ball_vel.wf(),
            final(self).player_1_pos.wf(),
            final(self).player_2_pos.wf(),
            in_coord_range(final(self).ball_pos.x as int),
    {
        proof {
            lemma_velocity_step(self.ball_vel.x as int, dt as int);
            lemma_velocity_step(self.ball_vel.y as int, dt as int);
        }
        self.ball_pos.x = self.ball_pos.x + self.ball_vel.x * dt;
        self.ball_pos.y = self.ball_pos.y + self.ball_vel.y * dt;
    }

    /// Advances the match by one tick, in this order: each paddle takes its
    /// up key and then its down key (both apply when both are held); a ball
    /// past the left boundary scores for player 2, then one past the right
    /// boundary scores for player 1, a point restarting the ball from the
    /// centre in the direction `x_positive`, `y_positive`; the ball moves by
    /// its velocity times `dt`; it bounces off the top and bottom walls; and
    /// its horizontal velocity is reversed for each paddle that it overlaps.
    pub fn tick(&mut self, input: &TickInput, x_positive: bool, y_positive: bool)
        requires
            old(self).wf(),
            old(self).can_score(),
            input.wf(),
        ensures
            *final(self) == old(self).next(*input, x_positive, y_positive),
            final(self).wf(),
    {
        self.move_paddles(input);
        self.score(input, x_positive, y_positive);
        self.move_ball(input.dt);
        handle_ball_on_y_borders(&mut self.ball_pos, &mut self.ball_vel, input.screen_height);
        intersect_player(&self.player_1_pos, &self.ball_pos, &mut self.ball_vel);
        intersect_player(&self.player_2_pos, &self.ball_pos, &mut self.ball_vel);
    }

    /// Advances the match by one tick as `tick` does, with the direction of
    /// a restarted ball drawn at random: each sign independently, with even
    /// odds.
    pub fn update(&mut self, input: &TickInput)
        requires
            old(self).wf(),
            old(self).can_score(),
            input.wf(),
        ensures
            exists|x_positive: bool, y_positive: bool|
                *final(self) == old(self).next(*input, x_positive, y_positive),
            final(self).wf(),
            input.screen_height >= RACKET_HEIGHT ==> {
                &&& RACKET_HEIGHT_HALF <= final(self).player_1_pos.y <= input.screen_height
                    - RACKET_HEIGHT_HALF
                &&& RACKET_HEIGHT_HALF <= final(self).player_2_pos.y <= input.screen_height
                    - RACKET_HEIGHT_HALF
            },
            input.screen_height >= BALL_SIZE ==> BALL_SIZE_HALF <= final(self).ball_pos.y
                <= input.screen_height - BALL_SIZE_HALF,
            old(self).ball_vel.at_ball_speed() ==> final(self).ball_vel.at_ball_speed(),
    {
        let x_positive = coin_flip();
        let y_positive = coin_flip();
        proof {
            if input.screen_height >= RACKET_HEIGHT {
                lemma_paddles_stay_on_screen(*self, *input, x_positive, y_positive);
            }
            if input.screen_height >= BALL_SIZE {
                lemma_ball_stays_on_screen(*self, *input, x_positive, y_positive);
            }
            if self.ball_vel.at_ball_speed() {
                lemma_ball_speed_kept(*self, *input, x_positive, y_positive);
            }
        }
        self.tick(input, x_positive, y_positive);
    }
}

} // verus!
