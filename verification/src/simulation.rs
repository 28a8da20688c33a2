//! One fixed step of the simulation, and what a match is: a sequence of
//! frames, on which the serve timer advances by the real time that passed,
//! and of fixed steps.

use vstd::prelude::*;
use crate::config::Config;
use crate::geometry::Vec2;
use crate::motion::{apply_velocity, integrated};
use crate::opponent::{opponent_controller, pursuing};
use crate::player::{player_controller, steered_world};
use crate::resolver::{process_collisions, resolved, resolved_events};
use crate::serve::after_frame;
use crate::world::{CollisionEvent, World};

verus! {

/// The world as the collision checks of a fixed step find it: the player's
/// paddle has followed the pointer, the opponent's has been given its speed,
/// and everything with a velocity has moved.
pub open spec fn before_collisions(cfg: Config, world: World, deltas: Seq<Vec2>) -> World {
    integrated(cfg, pursuing(cfg, steered_world(cfg, world, deltas)))
}

/// The world after one fixed step.
pub open spec fn after_tick(cfg: Config, world: World, deltas: Seq<Vec2>) -> World {
    resolved(cfg, before_collisions(cfg, world, deltas))
}

/// What drives a match forward.
pub enum Advance {
    /// A frame on which the given number of nanoseconds has passed.
    Frame(u64),
    /// A fixed step with the pointer motions gathered since the last one.
    Tick(Seq<Vec2>),
}

/// The world after one advance.
pub open spec fn advanced_by(cfg: Config, world: World, advance: Advance) -> World {
    match advance {
        Advance::Frame(delta) => after_frame(cfg, world, delta),
        Advance::Tick(deltas) => after_tick(cfg, world, deltas),
    }
}

/// The world after a sequence of advances.
pub open spec fn played(cfg: Config, world: World, advances: Seq<Advance>) -> World
    decreases advances.len(),
{
    if advances.len() == 0 {
        world
    } else {
        advanced_by(cfg, played(cfg, world, advances.drop_last()), advances.last())
    }
}

/// Runs one fixed step: pointer input and the opponent's control first, then
/// the motion, then the collision checks, whose events it returns.
pub fn fixed_tick(cfg: &Config, world: &mut World, deltas: &Vec<Vec2>) -> (events: Vec<
    CollisionEvent,
>)
    requires
        cfg.wf(),
        old(world).wf(),
    ensures
        *final(world) == after_tick(*cfg, *old(world), deltas@),
        events@ == resolved_events(*cfg, before_collisions(*cfg, *old(world), deltas@)),
        final(world).wf(),
        old(world).lifecycle_ok() ==> final(world).lifecycle_ok(),
        final(world).scoreboard.player >= old(world).scoreboard.player,
        final(world).scoreboard.opponent >= old(world).scoreboard.opponent,
        -cfg.player_reach() <= final(world).player.y <= cfg.player_reach(),
        -cfg.ai_max_speed <= final(world).opponent_velocity.y <= cfg.ai_max_speed,
{
    player_controller(cfg, world, deltas);
    opponent_controller(cfg, world);
    apply_velocity(cfg, world);
    process_collisions(cfg, world)
}

} // verus!
