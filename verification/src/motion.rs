//! Moves whatever has a velocity by one fixed step.
//!
//! A step adds the velocity divided by the number of steps in a second,
//! rounded toward zero, so that a motion and its mirror image stay mirror
//! images. Positions stop at the ends of the `i64` range.

use vstd::prelude::*;
use crate::config::Config;
use crate::geometry::Vec2;
use crate::numeric::{div_toward_zero, quotient_toward_zero, saturate, saturating_offset};
use crate::world::{Ball, World};

verus! {

/// A coordinate after one step at the given speed.
pub open spec fn advanced(cfg: Config, pos: i64, vel: i64) -> int {
    saturate(pos + div_toward_zero(vel as int, cfg.ticks_per_second as int))
}

/// A position after one step at the given velocity.
pub open spec fn moved(cfg: Config, position: Vec2, velocity: Vec2) -> Vec2 {
    Vec2 {
        x: advanced(cfg, position.x, velocity.x) as i64,
        y: advanced(cfg, position.y, velocity.y) as i64,
    }
}

/// The world after the ball and the opponent's paddle have moved one step.
pub open spec fn integrated(cfg: Config, world: World) -> World {
    World {
        opponent: moved(cfg, world.opponent, world.opponent_velocity),
        ball: match world.ball {
            Some(ball) => Some(
                Ball { position: moved(cfg, ball.position, ball.velocity), velocity: ball.velocity },
            ),
            None => None,
        },
        ..world
    }
}

/// Moves a position by one step at the given velocity.
pub fn step_position(cfg: &Config, position: Vec2, velocity: Vec2) -> (r: Vec2)
    requires
        cfg.wf(),
    ensures
        r == moved(*cfg, position, velocity),
        r.x == advanced(*cfg, position.x, velocity.x),
        r.y == advanced(*cfg, position.y, velocity.y),
{
    let dx = quotient_toward_zero(velocity.x, cfg.ticks_per_second);
    let dy = quotient_toward_zero(velocity.y, cfg.ticks_per_second);
    Vec2 { x: saturating_offset(position.x, dx), y: saturating_offset(position.y, dy) }
}

/// Moves the ball, if there is one, and the opponent's paddle by one step.
/// The player's paddle has no velocity and stays.
pub fn apply_velocity(cfg: &Config, world: &mut World)
    requires
        cfg.wf(),
    ensures
        *final(world) == integrated(*cfg, *old(world)),
        old(world).wf() ==> final(world).wf(),
        old(world).lifecycle_ok() ==> final(world).lifecycle_ok(),
{
    world.opponent = step_position(cfg, world.opponent, world.opponent_velocity);
    match world.ball {
        Some(ball) => {
            world.ball = Some(
                Ball {
                    position: step_position(cfg, ball.position, ball.velocity),
                    velocity: ball.velocity,
                },
            );
        },
        None => {},
    }
}

} // verus!
