//! The player's paddle follows the pointer: the motion gathered since the
//! last step is added to its height, and the paddle stays in the court.
//!
//! Pointer motion counts downward as positive, the court upward, so the
//! vertical parts are subtracted. The horizontal parts are not used.

use vstd::prelude::*;
use crate::config::Config;
use crate::geometry::Vec2;
use crate::numeric::{clamp_i128, clamp_int};
use crate::world::World;

verus! {

/// How far up the pointer motions of a batch lead, all together.
pub open spec fn total_rise(deltas: Seq<Vec2>) -> int
    decreases deltas.len(),
{
    if deltas.len() == 0 {
        0
    } else {
        total_rise(deltas.drop_last()) - deltas.last().y
    }
}

/// The height of the player's paddle after a batch of pointer motions.
pub open spec fn steered(cfg: Config, height: i64, deltas: Seq<Vec2>) -> int {
    clamp_int(height + total_rise(deltas), -cfg.player_reach(), cfg.player_reach())
}

/// The world after the player's paddle has followed a batch of pointer motions.
pub open spec fn steered_world(cfg: Config, world: World, deltas: Seq<Vec2>) -> World {
    World {
        player: Vec2 { x: world.player.x, y: steered(cfg, world.player.y, deltas) as i64 },
        ..world
    }
}

/// Each motion moves the total by at most the magnitude of the smallest `i64`.
proof fn lemma_total_rise_bounds(deltas: Seq<Vec2>)
    ensures
        -(deltas.len() * 0x8000_0000_0000_0000) <= total_rise(deltas) <= deltas.len()
            * 0x8000_0000_0000_0000,
    decreases deltas.len(),
{
    if deltas.len() > 0 {
        lemma_total_rise_bounds(deltas.drop_last());
    }
}

/// One more motion at the end of a batch adds its own rise to the total.
proof fn lemma_total_rise_push(deltas: Seq<Vec2>, delta: Vec2)
    ensures
        total_rise(deltas.push(delta)) == total_rise(deltas) - delta.y,
{
    assert(deltas.push(delta).drop_last() =~= deltas);
}

/// The total of two batches, one after the other, is the sum of their
/// totals: which of the two comes first makes no difference.
pub proof fn law_batches_add_up(first: Seq<Vec2>, second: Seq<Vec2>)
    ensures
        total_rise(first + second) == total_rise(first) + total_rise(second),
        total_rise(first + second) == total_rise(second + first),
{
    lemma_total_rise_append(first, second);
    lemma_total_rise_append(second, first);
}

/// The total of a batch followed by another is the sum of their totals.
proof fn lemma_total_rise_append(first: Seq<Vec2>, second: Seq<Vec2>)
    ensures
        total_rise(first + second) == total_rise(first) + total_rise(second),
    decreases second.len(),
{
    if second.len() == 0 {
        assert(first + second =~= first);
    } else {
        lemma_total_rise_append(first, second.drop_last());
        assert((first + second).drop_last() =~= first + second.drop_last());
    }
}

/// Moves the player's paddle by a batch of pointer motions and keeps it
/// between the top and bottom of the court, a margin away from each. An
/// empty batch leaves a paddle that is within these bounds where it is.
pub fn player_controller(cfg: &Config, world: &mut World, deltas: &Vec<Vec2>)
    requires
        cfg.wf(),
    ensures
        *final(world) == steered_world(*cfg, *old(world), deltas@),
        final(world).player.y == steered(*cfg, old(world).player.y, deltas@),
        -cfg.player_reach() <= final(world).player.y <= cfg.player_reach(),
        deltas@.len() == 0 && -cfg.player_reach() <= old(world).player.y <= cfg.player_reach()
            ==> *final(world) == *old(world),
{
    let mut rise: i128 = 0;
    let mut i: usize = 0;
    while i < deltas.len()
        invariant
            i <= deltas.len(),
            rise == total_rise(deltas@.take(i as int)),
        decreases deltas.len() - i,
    {
        proof {
            lemma_total_rise_bounds(deltas@.take(i as int));
            lemma_total_rise_push(deltas@.take(i as int), deltas@[i as int]);
            assert(deltas@.take(i as int).push(deltas@[i as int]) =~= deltas@.take(i + 1));
        }
        rise = rise - deltas[i].y as i128;
        i = i + 1;
    }
    proof {
        assert(deltas@.take(i as int) =~= deltas@);
        lemma_total_rise_bounds(deltas@);
    }
    let reach = cfg.player_upper_bound();
    world.player.y = clamp_i128(world.player.y as i128 + rise, -reach, reach);
}

} // verus!
