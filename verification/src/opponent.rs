//! The opponent's paddle follows an approaching ball: its vertical speed is
//! proportional to its vertical distance from the ball, up to a largest
//! speed. It remembers nothing and predicts nothing.

use vstd::prelude::*;
use crate::config::Config;
use crate::geometry::Vec2;
use crate::numeric::{clamp_i128, clamp_int};
use crate::world::{Ball, World};

verus! {

/// The ball exists and moves toward the opponent's side, the right one.
pub open spec fn approaching(ball: Option<Ball>) -> bool {
    ball is Some && ball->Some_0.velocity.x > 0
}

/// The vertical speed that the opponent's paddle is given.
pub open spec fn pursuit_speed(cfg: Config, ball: Option<Ball>, opponent: Vec2) -> int {
    if approaching(ball) {
        clamp_int(
            (ball->Some_0.position.y - opponent.y) * cfg.ai_gain,
            -cfg.ai_max_speed,
            cfg.ai_max_speed as int,
        )
    } else {
        0
    }
}

/// The world after the opponent's paddle has been given its speed.
pub open spec fn pursuing(cfg: Config, world: World) -> World {
    World {
        opponent_velocity: Vec2 {
            x: world.opponent_velocity.x,
            y: pursuit_speed(cfg, world.ball, world.opponent) as i64,
        },
        ..world
    }
}

/// Sets the vertical velocity of the opponent's paddle for the coming step:
/// toward an approaching ball, zero otherwise.
pub fn opponent_controller(cfg: &Config, world: &mut World)
    requires
        cfg.wf(),
    ensures
        *final(world) == pursuing(*cfg, *old(world)),
        final(world).opponent_velocity.y == pursuit_speed(
            *cfg,
            old(world).ball,
            old(world).opponent,
        ),
        -cfg.ai_max_speed <= final(world).opponent_velocity.y <= cfg.ai_max_speed,
        !approaching(old(world).ball) ==> final(world).opponent_velocity.y == 0,
{
    let speed: i64 = match world.ball {
        Some(ball) if ball.velocity.x > 0 => {
            let gap: i128 = ball.position.y as i128 - world.opponent.y as i128;
            let gain: i128 = cfg.ai_gain as i128;
            assert(-0x1_0000_0000_0000_0000_0000_0000 <= gap * gain
                <= 0x1_0000_0000_0000_0000_0000_0000) by (nonlinear_arith)
                requires
                    -0x1_0000_0000_0000_0000 <= gap <= 0x1_0000_0000_0000_0000,
                    0 <= gain <= 0x1_0000_0000,
            ;
            clamp_i128(gap * gain, -cfg.ai_max_speed, cfg.ai_max_speed)
        },
        _ => 0,
    };
    world.opponent_velocity.y = speed;
}

} // verus!
