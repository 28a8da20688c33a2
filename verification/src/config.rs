//! The constants of a match, fixed when it starts.
//!
//! Lengths are whole numbers of a unit that the caller chooses; speeds are in
//! such units per second. Halves of lengths round down.

use vstd::prelude::*;
use crate::geometry::{scaled_rect, scaled_vec, Rect, Vec2};

verus! {

/// The largest value that any length, speed or factor of a configuration may have.
pub const CONFIG_LIMIT: i64 = 1_073_741_824;

/// Everything about a match that does not change while it is played.
#[derive(Clone, Copy, Debug, PartialEq, Eq, Structural)]
pub struct Config {
    /// Width and height of the court, which is centred on the origin.
    pub court: Vec2,
    /// Width and height of either paddle.
    pub paddle_size: Vec2,
    /// Width and height of the ball.
    pub ball_size: Vec2,
    /// Horizontal distance of each paddle's centre from its edge of the court.
    pub paddle_inset: i64,
    /// Gap kept between the player's paddle and the top and bottom edges.
    pub paddle_margin: i64,
    /// Number of fixed simulation steps in a second.
    pub ticks_per_second: i64,
    /// Factor from the strike offset on a paddle to the ball's vertical speed.
    pub bounce_steepness: i64,
    /// Horizontal speed of the ball.
    pub ball_speed: i64,
    /// Time between a goal and the next serve, in nanoseconds.
    pub serve_delay: u64,
    /// Factor from the opponent's vertical distance to the ball to its speed.
    pub ai_gain: i64,
    /// Largest vertical speed of the opponent's paddle.
    pub ai_max_speed: i64,
    /// The strip below the court that bounces the ball.
    pub lower_wall: Rect,
    /// The strip above the court that bounces the ball.
    pub upper_wall: Rect,
    /// The scoring strip behind the player, at the left edge.
    pub left_gutter: Rect,
    /// The scoring strip behind the opponent, at the right edge.
    pub right_gutter: Rect,
}

/// `v` lies between `lo` and the limit for configuration values.
pub open spec fn in_limits(v: i64, lo: i64) -> bool {
    lo <= v <= CONFIG_LIMIT
}

/// The rectangle's centre is no further from the origin than the limit for
/// configuration values, and its extent is neither negative nor larger.
pub open spec fn rect_in_limits(rect: Rect) -> bool {
    &&& in_limits(rect.centre.x, (-CONFIG_LIMIT) as i64)
    &&& in_limits(rect.centre.y, (-CONFIG_LIMIT) as i64)
    &&& in_limits(rect.size.x, 0)
    &&& in_limits(rect.size.y, 0)
}

impl Config {
    /// The values are within the limits that keep all arithmetic exact, the
    /// ball has a horizontal speed, and the player's paddle fits into the
    /// court with its margin.
    pub open spec fn wf(self) -> bool {
        &&& in_limits(self.court.x, 1)
        &&& in_limits(self.court.y, 1)
        &&& in_limits(self.paddle_size.x, 0)
        &&& in_limits(self.paddle_size.y, 0)
        &&& in_limits(self.ball_size.x, 0)
        &&& in_limits(self.ball_size.y, 0)
        &&& in_limits(self.paddle_inset, 0)
        &&& in_limits(self.paddle_margin, 0)
        &&& in_limits(self.ticks_per_second, 1)
        &&& in_limits(self.bounce_steepness, 0)
        &&& in_limits(self.ball_speed, 1)
        &&& in_limits(self.ai_gain, 0)
        &&& in_limits(self.ai_max_speed, 0)
        &&& rect_in_limits(self.lower_wall)
        &&& rect_in_limits(self.upper_wall)
        &&& rect_in_limits(self.left_gutter)
        &&& rect_in_limits(self.right_gutter)
        &&& self.court.y / 2 - self.paddle_size.y / 2 - self.paddle_margin >= 0
    }

    /// The highest position of the player's paddle; the lowest is its negation.
    pub open spec fn player_reach(self) -> int {
        self.court.y / 2 - self.paddle_size.y / 2 - self.paddle_margin
    }

    /// Where the player's paddle stands when a match starts.
    pub open spec fn player_home(self) -> Vec2 {
        Vec2 { x: (-(self.court.x / 2) + self.paddle_inset) as i64, y: 0 }
    }

    /// Where the opponent's paddle stands when a match starts.
    pub open spec fn opponent_home(self) -> Vec2 {
        Vec2 { x: (self.court.x / 2 - self.paddle_inset) as i64, y: 0 }
    }

    /// A court of 800 by 600 with paddles of 6 by 46 and a ball of 8 by 8,
    /// sixty steps a second and half a second between goal and serve. The
    /// walls are strips of 40 along the outside of the top and bottom edges.
    /// The gutters are strips of 26: the left one is centred 3 inside the left
    /// edge, the right one on the right edge itself and 3 higher.
    pub fn classic() -> (cfg: Config)
        ensures
            cfg.wf(),
            cfg == (Config {
                court: Vec2 { x: 800, y: 600 },
                paddle_size: Vec2 { x: 6, y: 46 },
                ball_size: Vec2 { x: 8, y: 8 },
                paddle_inset: 26,
                paddle_margin: 5,
                ticks_per_second: 60,
                bounce_steepness: 22,
                ball_speed: 500,
                serve_delay: 500_000_000,
                ai_gain: 13,
                ai_max_speed: 450,
                lower_wall: Rect {
                    centre: Vec2 { x: 0, y: (-320) as i64 },
                    size: Vec2 { x: 800, y: 40 },
                },
                upper_wall: Rect { centre: Vec2 { x: 0, y: 320 }, size: Vec2 { x: 800, y: 40 } },
                left_gutter: Rect {
                    centre: Vec2 { x: (-397) as i64, y: 0 },
                    size: Vec2 { x: 26, y: 600 },
                },
                right_gutter: Rect { centre: Vec2 { x: 400, y: 3 }, size: Vec2 { x: 26, y: 600 } },
            }),
    {
        Config {
            court: Vec2 { x: 800, y: 600 },
            paddle_size: Vec2 { x: 6, y: 46 },
            ball_size: Vec2 { x: 8, y: 8 },
            paddle_inset: 26,
            paddle_margin: 5,
            ticks_per_second: 60,
            bounce_steepness: 22,
            ball_speed: 500,
            serve_delay: 500_000_000,
            ai_gain: 13,
            ai_max_speed: 450,
            lower_wall: Rect { centre: Vec2 { x: 0, y: -320 }, size: Vec2 { x: 800, y: 40 } },
            upper_wall: Rect { centre: Vec2 { x: 0, y: 320 }, size: Vec2 { x: 800, y: 40 } },
            left_gutter: Rect { centre: Vec2 { x: -397, y: 0 }, size: Vec2 { x: 26, y: 600 } },
            right_gutter: Rect { centre: Vec2 { x: 400, y: 3 }, size: Vec2 { x: 26, y: 600 } },
        }
    }

    /// The same match on a grid `factor` times as fine: every length and
    /// every speed is multiplied; the rates per second and the serve delay stay.
    pub open spec fn scaled_by(self, factor: i64) -> Config {
        Config {
            court: scaled_vec(self.court, factor),
            paddle_size: scaled_vec(self.paddle_size, factor),
            ball_size: scaled_vec(self.ball_size, factor),
            paddle_inset: (self.paddle_inset * factor) as i64,
            paddle_margin: (self.paddle_margin * factor) as i64,
            ball_speed: (self.ball_speed * factor) as i64,
            ai_max_speed: (self.ai_max_speed * factor) as i64,
            lower_wall: scaled_rect(self.lower_wall, factor),
            upper_wall: scaled_rect(self.upper_wall, factor),
            left_gutter: scaled_rect(self.left_gutter, factor),
            right_gutter: scaled_rect(self.right_gutter, factor),
            ..self
        }
    }

    /// The configuration on a grid `factor` times as fine, if this one is
    /// valid, the factor is at least one and within the limit, and the
    /// result is valid as well.
    pub fn scaled(&self, factor: i64) -> (r: Option<Config>)
        ensures
            r == (if self.wf() && 1 <= factor <= CONFIG_LIMIT && self.scaled_by(factor).wf() {
                Some(self.scaled_by(factor))
            } else {
                None
            }),
    {
        if !self.is_valid() || factor < 1 || factor > CONFIG_LIMIT {
            return None;
        }
        let finer = Config {
            court: scale_vec(self.court, factor),
            paddle_size: scale_vec(self.paddle_size, factor),
            ball_size: scale_vec(self.ball_size, factor),
            paddle_inset: scale(self.paddle_inset, factor),
            paddle_margin: scale(self.paddle_margin, factor),
            ticks_per_second: self.ticks_per_second,
            bounce_steepness: self.bounce_steepness,
            ball_speed: scale(self.ball_speed, factor),
            serve_delay: self.serve_delay,
            ai_gain: self.ai_gain,
            ai_max_speed: scale(self.ai_max_speed, factor),
            lower_wall: scale_rect(self.lower_wall, factor),
            upper_wall: scale_rect(self.upper_wall, factor),
            left_gutter: scale_rect(self.left_gutter, factor),
            right_gutter: scale_rect(self.right_gutter, factor),
        };
        if finer.is_valid() {
            Some(finer)
        } else {
            None
        }
    }

    /// Tells whether the configuration can be played with.
    pub fn is_valid(&self) -> (ok: bool)
        ensures
            ok == self.wf(),
    {
        within(self.court.x, 1) && within(self.court.y, 1) && within(self.paddle_size.x, 0)
            && within(self.paddle_size.y, 0) && within(self.ball_size.x, 0) && within(
            self.ball_size.y,
            0,
        ) && within(self.paddle_inset, 0) && within(self.paddle_margin, 0) && within(
            self.ticks_per_second,
            1,
        ) && within(self.bounce_steepness, 0) && within(self.ball_speed, 1) && within(
            self.ai_gain,
            0,
        ) && within(self.ai_max_speed, 0) && rect_within(&self.lower_wall) && rect_within(
            &self.upper_wall,
        ) && rect_within(&self.left_gutter) && rect_within(&self.right_gutter) && self.court.y / 2
            - self.paddle_size.y / 2 - self.paddle_margin >= 0
    }

    /// The highest position of the player's paddle.
    pub fn player_upper_bound(&self) -> (r: i64)
        requires
            self.wf(),
        ensures
            r == self.player_reach(),
            0 <= r <= CONFIG_LIMIT,
    {
        self.court.y / 2 - self.paddle_size.y / 2 - self.paddle_margin
    }
}

/// Tells whether the rectangle is within the limits for configuration values.
fn rect_within(rect: &Rect) -> (ok: bool)
    ensures
        ok == rect_in_limits(*rect),
{
    within(rect.centre.x, -CONFIG_LIMIT) && within(rect.centre.y, -CONFIG_LIMIT) && within(
        rect.size.x,
        0,
    ) && within(rect.size.y, 0)
}

/// Multiplies a configuration value by a scale factor.
fn scale(v: i64, factor: i64) -> (r: i64)
    requires
        -CONFIG_LIMIT <= v <= CONFIG_LIMIT,
        1 <= factor <= CONFIG_LIMIT,
    ensures
        r == v * factor,
{
    assert(-CONFIG_LIMIT * CONFIG_LIMIT <= v * factor <= CONFIG_LIMIT * CONFIG_LIMIT)
        by (nonlinear_arith)
        requires
            -CONFIG_LIMIT <= v <= CONFIG_LIMIT,
            1 <= factor <= CONFIG_LIMIT,
    ;
    v * factor
}

/// Multiplies both parts of a configuration vector by a scale factor.
fn scale_vec(v: Vec2, factor: i64) -> (r: Vec2)
    requires
        -CONFIG_LIMIT <= v.x <= CONFIG_LIMIT,
        -CONFIG_LIMIT <= v.y <= CONFIG_LIMIT,
        1 <= factor <= CONFIG_LIMIT,
    ensures
        r == scaled_vec(v, factor),
{
    Vec2 { x: scale(v.x, factor), y: scale(v.y, factor) }
}

/// Multiplies centre and extent of a configuration rectangle by a scale factor.
fn scale_rect(rect: Rect, factor: i64) -> (r: Rect)
    requires
        rect_in_limits(rect),
        1 <= factor <= CONFIG_LIMIT,
    ensures
        r == scaled_rect(rect, factor),
{
    Rect { centre: scale_vec(rect.centre, factor), size: scale_vec(rect.size, factor) }
}

/// Tells whether `v` lies between `lo` and the limit for configuration values.
fn within(v: i64, lo: i64) -> (ok: bool)
    ensures
        ok == in_limits(v, lo),
{
    lo <= v && v <= CONFIG_LIMIT
}

} // verus!
