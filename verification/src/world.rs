//! The state of a match: two paddles, at most one ball, the score and the
//! serve schedule.

use vstd::prelude::*;
use crate::config::Config;
use crate::geometry::{Rect, Vec2};
use crate::timer::Timer;

verus! {

/// The ball while it is in flight.
#[derive(Clone, Copy, Debug, PartialEq, Eq, Structural)]
pub struct Ball {
    /// Its centre.
    pub position: Vec2,
    /// In units per second.
    pub velocity: Vec2,
}

impl Ball {
    /// Both components of the velocity can change sign.
    pub open spec fn wf(self) -> bool {
        self.velocity.x > i64::MIN && self.velocity.y > i64::MIN
    }
}

/// Goals so far. A counter that has reached the largest `u16` stays there.
#[derive(Clone, Copy, Debug, PartialEq, Eq, Structural)]
pub struct Scoreboard {
    pub player: u16,
    pub opponent: u16,
}

/// What a step of the simulation reports to whoever plays the sounds.
#[derive(Clone, Copy, Debug, PartialEq, Eq, Structural)]
pub enum CollisionEvent {
    Bounce,
    Goal,
}

/// When the next ball comes, and which way it goes.
#[derive(Clone, Copy, Debug, PartialEq, Eq, Structural)]
pub struct ServeState {
    /// The next ball starts toward the player's side.
    pub player_turn: bool,
    /// Counts the delay before the next serve; restarted by every goal.
    pub timer: Timer,
}

/// All that changes during a match.
#[derive(Clone, Copy, Debug, PartialEq, Eq, Structural)]
pub struct World {
    /// Centre of the player's paddle, on the left.
    pub player: Vec2,
    /// Centre of the opponent's paddle, on the right.
    pub opponent: Vec2,
    /// In units per second.
    pub opponent_velocity: Vec2,
    /// The ball, between a serve and the goal that ends the rally.
    pub ball: Option<Ball>,
    pub scoreboard: Scoreboard,
    pub serve: ServeState,
}

/// A counter after one more goal.
pub open spec fn bumped(count: u16) -> u16 {
    if count < u16::MAX {
        (count + 1) as u16
    } else {
        count
    }
}

impl World {
    /// The ball, if there is one, is well formed.
    pub open spec fn wf(self) -> bool {
        self.ball is Some ==> self.ball->Some_0.wf()
    }

    /// A ball is in flight only while the serve timer rests: between a goal
    /// and the serve that follows it there is none.
    pub open spec fn lifecycle_ok(self) -> bool {
        &&& self.serve.timer.wf()
        &&& self.ball is Some ==> self.serve.timer.finished
    }

    /// The state in which a match starts.
    pub open spec fn initial(cfg: Config) -> World {
        World {
            player: cfg.player_home(),
            opponent: cfg.opponent_home(),
            opponent_velocity: Vec2 { x: 0, y: 0 },
            ball: None,
            scoreboard: Scoreboard { player: 0, opponent: 0 },
            serve: ServeState { player_turn: true, timer: Timer::armed(cfg.serve_delay) },
        }
    }

    /// What there is to draw: the player's paddle, the opponent's, and the
    /// ball if one is in flight.
    pub open spec fn outlines(self, cfg: Config) -> Seq<Rect> {
        let paddles = seq![
            Rect { centre: self.player, size: cfg.paddle_size },
            Rect { centre: self.opponent, size: cfg.paddle_size },
        ];
        match self.ball {
            Some(ball) => paddles.push(Rect { centre: ball.position, size: cfg.ball_size }),
            None => paddles,
        }
    }

    /// Lists the rectangles of everything that exists, paddles first.
    pub fn snapshot(&self, cfg: &Config) -> (shapes: Vec<Rect>)
        ensures
            shapes@ == self.outlines(*cfg),
    {
        let mut shapes: Vec<Rect> = Vec::new();
        shapes.push(Rect { centre: self.player, size: cfg.paddle_size });
        shapes.push(Rect { centre: self.opponent, size: cfg.paddle_size });
        if let Some(ball) = self.ball {
            shapes.push(Rect { centre: ball.position, size: cfg.ball_size });
        }
        assert(shapes@ =~= self.outlines(*cfg));
        shapes
    }

    /// Tells whether the state can be stepped.
    pub fn is_valid(&self) -> (ok: bool)
        ensures
            ok == self.wf(),
    {
        match self.ball {
            Some(ball) => ball.velocity.x > i64::MIN && ball.velocity.y > i64::MIN,
            None => true,
        }
    }
}

/// Puts both paddles at their places, with no ball yet, no goals, the first
/// serve going to the player, and the serve timer at the start of its delay.
pub fn setup(cfg: &Config) -> (world: World)
    requires
        cfg.wf(),
    ensures
        world == World::initial(*cfg),
        world.wf(),
        world.lifecycle_ok(),
{
    World {
        player: Vec2 { x: -(cfg.court.x / 2) + cfg.paddle_inset, y: 0 },
        opponent: Vec2 { x: cfg.court.x / 2 - cfg.paddle_inset, y: 0 },
        opponent_velocity: Vec2 { x: 0, y: 0 },
        ball: None,
        scoreboard: Scoreboard { player: 0, opponent: 0 },
        serve: ServeState { player_turn: true, timer: Timer::new(cfg.serve_delay) },
    }
}

} // verus!
