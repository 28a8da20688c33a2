//! Puts a new ball into play once the delay after a goal, or after the start
//! of the match, has passed. Serves go to the two sides in turn.

use vstd::prelude::*;
use crate::config::Config;
use crate::geometry::Vec2;
use crate::world::{Ball, ServeState, World};

verus! {

/// The ball as it is served: at the centre of the court, level, toward the
/// player's side on the player's turn and toward the opponent's otherwise.
pub open spec fn served_ball(cfg: Config, player_turn: bool) -> Ball {
    Ball {
        position: Vec2 { x: 0, y: 0 },
        velocity: Vec2 {
            x: if player_turn {
                (-cfg.ball_speed) as i64
            } else {
                cfg.ball_speed
            },
            y: 0,
        },
    }
}

/// The serve timer reaches its duration with `delta` more nanoseconds.
pub open spec fn serve_due(world: World, delta: u64) -> bool {
    !world.serve.timer.finished && world.serve.timer.elapsed + delta >= world.serve.timer.duration
}

/// The world after `delta` nanoseconds of real time: the timer has advanced,
/// and if it reached its duration a ball has been served and the turn passed on.
pub open spec fn after_frame(cfg: Config, world: World, delta: u64) -> World {
    if serve_due(world, delta) {
        World {
            ball: Some(served_ball(cfg, world.serve.player_turn)),
            serve: ServeState {
                player_turn: !world.serve.player_turn,
                timer: world.serve.timer.ticked(delta),
            },
            ..world
        }
    } else {
        World { serve: ServeState { timer: world.serve.timer.ticked(delta), ..world.serve }, ..world }
    }
}

/// The world after a serve: the ball is in play and the turn has passed on.
pub open spec fn after_serve(cfg: Config, world: World) -> World {
    World {
        ball: Some(served_ball(cfg, world.serve.player_turn)),
        serve: ServeState { player_turn: !world.serve.player_turn, ..world.serve },
        ..world
    }
}

/// Puts a ball into play at the centre of the court, toward the side whose
/// turn it is, and passes the turn on.
pub fn serve_ball(cfg: &Config, world: &mut World)
    requires
        cfg.wf(),
    ensures
        *final(world) == after_serve(*cfg, *old(world)),
        final(world).wf(),
{
    let toward_player = world.serve.player_turn;
    let speed: i64 = if toward_player {
        -cfg.ball_speed
    } else {
        cfg.ball_speed
    };
    world.ball = Some(Ball { position: Vec2 { x: 0, y: 0 }, velocity: Vec2 { x: speed, y: 0 } });
    world.serve.player_turn = !toward_player;
}

/// Advances the serve timer by the real time that has passed, and serves a
/// ball on the step on which the timer reaches its duration. Until a goal
/// restarts the timer, no further ball is served.
pub fn ball_spawner(cfg: &Config, world: &mut World, delta: u64)
    requires
        cfg.wf(),
    ensures
        *final(world) == after_frame(*cfg, *old(world), delta),
        old(world).wf() ==> final(world).wf(),
        old(world).lifecycle_ok() ==> final(world).lifecycle_ok(),
        !serve_due(*old(world), delta) ==> final(world).ball == old(world).ball
            && final(world).serve.player_turn == old(world).serve.player_turn,
{
    world.serve.timer.tick(delta);
    if world.serve.timer.just_finished {
        serve_ball(cfg, world);
    }
}

} // verus!
