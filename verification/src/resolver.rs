//! What a ball in flight runs into after it has moved: the walls bounce it,
//! the gutters end the rally, the paddles send it back.
//!
//! The three checks are made one after the other on the same position, and
//! none of them stops the others. A ball that touches a gutter and something
//! else in one step is still bounced before it is taken away, and the events
//! of all checks are reported; a ball that touches both gutters scores for
//! both sides.

use vstd::prelude::*;
use crate::config::{Config, CONFIG_LIMIT};
use crate::geometry::{
    collide, collide_spec, high_edge, low_edge, overlaps, Collision, Rect, Vec2,
};
use crate::world::{bumped, Ball, CollisionEvent, Scoreboard, ServeState, World};

verus! {

/// A ball at `position` overlaps the rectangle.
pub open spec fn ball_touches(cfg: Config, position: Vec2, rect: Rect) -> bool {
    overlaps(position, cfg.ball_size, rect.centre, rect.size)
}

/// A ball at `position` overlaps the strip above or the strip below the court.
pub open spec fn hits_wall(cfg: Config, position: Vec2) -> bool {
    ball_touches(cfg, position, cfg.lower_wall) || ball_touches(cfg, position, cfg.upper_wall)
}

/// A ball at `position` overlaps the gutter behind the player.
pub open spec fn in_left_gutter(cfg: Config, position: Vec2) -> bool {
    ball_touches(cfg, position, cfg.left_gutter)
}

/// A ball at `position` overlaps the gutter behind the opponent.
pub open spec fn in_right_gutter(cfg: Config, position: Vec2) -> bool {
    ball_touches(cfg, position, cfg.right_gutter)
}

/// Only a hit on the left or the right side of a paddle sends the ball back.
pub open spec fn deflects(collision: Option<Collision>) -> bool {
    collision == Some(Collision::Left) || collision == Some(Collision::Right)
}

/// A ball at `position` is sent back by a paddle at `paddle`.
pub open spec fn hits_paddle(cfg: Config, position: Vec2, paddle: Vec2) -> bool {
    deflects(collide_spec(position, cfg.ball_size, paddle, cfg.paddle_size))
}

/// The velocity after the wall check.
pub open spec fn wall_bounced(cfg: Config, ball: Ball) -> Vec2 {
    if hits_wall(cfg, ball.position) {
        Vec2 { x: ball.velocity.x, y: (-ball.velocity.y) as i64 }
    } else {
        ball.velocity
    }
}

/// The vertical speed that a paddle at `paddle` gives a ball that strikes it
/// at `position`: the strike's offset from the paddle's centre times the
/// steepness.
pub open spec fn spin(cfg: Config, position: Vec2, paddle: Vec2) -> int {
    (position.y - paddle.y) * cfg.bounce_steepness
}

/// The velocity that leaves a paddle: unchanged unless the paddle is hit on
/// its left or right side; then sent back horizontally, with the spin of the
/// strike as its vertical part.
pub open spec fn paddle_bounced(
    cfg: Config,
    position: Vec2,
    velocity: Vec2,
    paddle: Vec2,
    collision: Option<Collision>,
) -> Vec2 {
    if deflects(collision) {
        Vec2 { x: (-velocity.x) as i64, y: spin(cfg, position, paddle) as i64 }
    } else {
        velocity
    }
}

/// The velocity after the check against the paddle at `paddle`.
pub open spec fn paddle_checked(cfg: Config, position: Vec2, velocity: Vec2, paddle: Vec2) -> Vec2 {
    paddle_bounced(
        cfg,
        position,
        velocity,
        paddle,
        collide_spec(position, cfg.ball_size, paddle, cfg.paddle_size),
    )
}

/// The velocity of the ball after all checks: walls, then the player's
/// paddle, then the opponent's.
pub open spec fn resolved_velocity(cfg: Config, world: World, ball: Ball) -> Vec2 {
    paddle_checked(
        cfg,
        ball.position,
        paddle_checked(cfg, ball.position, wall_bounced(cfg, ball), world.player),
        world.opponent,
    )
}

/// The world after the collision checks of one step.
pub open spec fn resolved(cfg: Config, world: World) -> World {
    match world.ball {
        None => world,
        Some(ball) => {
            let left = in_left_gutter(cfg, ball.position);
            let right = in_right_gutter(cfg, ball.position);
            World {
                ball: if left || right {
                    None
                } else {
                    Some(
                        Ball {
                            position: ball.position,
                            velocity: resolved_velocity(cfg, world, ball),
                        },
                    )
                },
                scoreboard: Scoreboard {
                    player: if right {
                        bumped(world.scoreboard.player)
                    } else {
                        world.scoreboard.player
                    },
                    opponent: if left {
                        bumped(world.scoreboard.opponent)
                    } else {
                        world.scoreboard.opponent
                    },
                },
                serve: if left || right {
                    ServeState { timer: world.serve.timer.restarted(), ..world.serve }
                } else {
                    world.serve
                },
                ..world
            }
        },
    }
}

/// `events` with `event` added at its end if `cond` holds.
pub open spec fn noted(events: Seq<CollisionEvent>, cond: bool, event: CollisionEvent) -> Seq<
    CollisionEvent,
> {
    if cond {
        events.push(event)
    } else {
        events
    }
}

/// The events of the collision checks of one step, in the order of the
/// checks: walls, left gutter, right gutter, player's paddle, opponent's.
pub open spec fn resolved_events(cfg: Config, world: World) -> Seq<CollisionEvent> {
    match world.ball {
        None => Seq::empty(),
        Some(ball) => {
            let p = ball.position;
            noted(
                noted(
                    noted(
                        noted(
                            noted(Seq::empty(), hits_wall(cfg, p), CollisionEvent::Bounce),
                            in_left_gutter(cfg, p),
                            CollisionEvent::Goal,
                        ),
                        in_right_gutter(cfg, p),
                        CollisionEvent::Goal,
                    ),
                    hits_paddle(cfg, p, world.player),
                    CollisionEvent::Bounce,
                ),
                hits_paddle(cfg, p, world.opponent),
                CollisionEvent::Bounce,
            )
        },
    }
}

/// Wherever a ball overlaps a paddle, its height over the paddle's centre
/// is less than half of their heights together, and so the spin of the
/// strike is a speed that can be stored and turned round.
pub proof fn lemma_spin_bounded(cfg: Config, position: Vec2, paddle: Vec2)
    requires
        cfg.wf(),
        overlaps(position, cfg.ball_size, paddle, cfg.paddle_size),
    ensures
        -CONFIG_LIMIT < position.y - paddle.y < CONFIG_LIMIT,
        -CONFIG_LIMIT * CONFIG_LIMIT <= spin(cfg, position, paddle) <= CONFIG_LIMIT * CONFIG_LIMIT,
{
    let d = position.y - paddle.y;
    let s = cfg.bounce_steepness as int;
    let m = CONFIG_LIMIT as int;
    assert(low_edge(position.y, cfg.ball_size.y) < high_edge(paddle.y, cfg.paddle_size.y));
    assert(high_edge(position.y, cfg.ball_size.y) > low_edge(paddle.y, cfg.paddle_size.y));
    assert(-m < d < m);
    assert(-m * m <= d * s <= m * m) by (nonlinear_arith)
        requires
            -m < d < m,
            0 <= s <= m,
    ;
}

/// Checks the ball against the two wall strips. Returns its velocity
/// afterwards and whether it bounced.
pub fn bounce_off_walls(cfg: &Config, ball: &Ball) -> (r: (Vec2, bool))
    requires
        cfg.wf(),
        ball.wf(),
    ensures
        r.1 == hits_wall(*cfg, ball.position),
        r.0 == wall_bounced(*cfg, *ball),
        r.1 ==> r.0.x == ball.velocity.x && r.0.y == -ball.velocity.y,
        !r.1 ==> r.0 == ball.velocity,
        r.0.x > i64::MIN && r.0.y > i64::MIN,
{
    let lower = cfg.lower_wall;
    let upper = cfg.upper_wall;
    let lower_hit = collide(ball.position, cfg.ball_size, lower.centre, lower.size);
    let upper_hit = collide(ball.position, cfg.ball_size, upper.centre, upper.size);
    if lower_hit.is_some() || upper_hit.is_some() {
        (Vec2 { x: ball.velocity.x, y: -ball.velocity.y }, true)
    } else {
        (ball.velocity, false)
    }
}

/// Decides what a paddle does to the ball, given how the ball lies against
/// it: on a hit from the left or the right the horizontal velocity changes
/// sign and the vertical one becomes the spin of the strike; any other
/// outcome leaves the velocity alone. Returns the velocity and the event to
/// report, if any.
pub fn bounce_off_paddle(
    cfg: &Config,
    position: Vec2,
    velocity: Vec2,
    paddle: Vec2,
    collision: Option<Collision>,
) -> (r: (Vec2, Option<CollisionEvent>))
    requires
        cfg.wf(),
        velocity.x > i64::MIN,
        velocity.y > i64::MIN,
        collision == collide_spec(position, cfg.ball_size, paddle, cfg.paddle_size),
    ensures
        r.1 == (if deflects(collision) {
            Some(CollisionEvent::Bounce)
        } else {
            None
        }),
        r.0 == paddle_bounced(*cfg, position, velocity, paddle, collision),
        deflects(collision) ==> r.0.x == -velocity.x && r.0.y == (position.y - paddle.y)
            * cfg.bounce_steepness,
        !deflects(collision) ==> r.0 == velocity,
        r.0.x > i64::MIN && r.0.y > i64::MIN,
{
    match collision {
        Some(Collision::Left) | Some(Collision::Right) => {
            proof {
                lemma_spin_bounded(*cfg, position, paddle);
            }
            let offset: i64 = position.y - paddle.y;
            (
                Vec2 { x: -velocity.x, y: offset * cfg.bounce_steepness },
                Some(CollisionEvent::Bounce),
            )
        },
        _ => (velocity, None),
    }
}

/// Checks a ball against one paddle. Returns its velocity afterwards and
/// the event to report, if any.
pub fn check_paddle(cfg: &Config, position: Vec2, velocity: Vec2, paddle: Vec2) -> (r: (
    Vec2,
    Option<CollisionEvent>,
))
    requires
        cfg.wf(),
        velocity.x > i64::MIN,
        velocity.y > i64::MIN,
    ensures
        r.1 == (if hits_paddle(*cfg, position, paddle) {
            Some(CollisionEvent::Bounce)
        } else {
            None
        }),
        r.0 == paddle_checked(*cfg, position, velocity, paddle),
        r.0.x > i64::MIN && r.0.y > i64::MIN,
{
    let collision = collide(position, cfg.ball_size, paddle, cfg.paddle_size);
    bounce_off_paddle(cfg, position, velocity, paddle, collision)
}

/// Adds one to a goal counter, unless it is at its largest value.
pub fn bump(count: u16) -> (r: u16)
    ensures
        r == bumped(count),
        r >= count,
        count < u16::MAX ==> r == count + 1,
{
    if count < u16::MAX {
        count + 1
    } else {
        count
    }
}

/// Runs the collision checks of one step and returns the events in the
/// order in which they were found. Without a ball nothing happens.
pub fn process_collisions(cfg: &Config, world: &mut World) -> (events: Vec<CollisionEvent>)
    requires
        cfg.wf(),
        old(world).wf(),
    ensures
        *final(world) == resolved(*cfg, *old(world)),
        events@ == resolved_events(*cfg, *old(world)),
        final(world).wf(),
        old(world).lifecycle_ok() ==> final(world).lifecycle_ok(),
        final(world).scoreboard.player >= old(world).scoreboard.player,
        final(world).scoreboard.opponent >= old(world).scoreboard.opponent,
{
    let mut events: Vec<CollisionEvent> = Vec::new();
    let ball = match world.ball {
        None => {
            return events;
        },
        Some(ball) => ball,
    };

    let (velocity, wall_hit) = bounce_off_walls(cfg, &ball);
    if wall_hit {
        events.push(CollisionEvent::Bounce);
    }
    let left = cfg.left_gutter;
    let right = cfg.right_gutter;
    let left_goal = collide(ball.position, cfg.ball_size, left.centre, left.size).is_some();
    let right_goal = collide(ball.position, cfg.ball_size, right.centre, right.size).is_some();
    if left_goal {
        world.serve.timer.reset();
        world.scoreboard.opponent = bump(world.scoreboard.opponent);
        events.push(CollisionEvent::Goal);
    }
    if right_goal {
        world.serve.timer.reset();
        world.scoreboard.player = bump(world.scoreboard.player);
        events.push(CollisionEvent::Goal);
    }
    let (velocity, player_hit) = check_paddle(cfg, ball.position, velocity, world.player);
    if let Some(event) = player_hit {
        events.push(event);
    }
    let (velocity, opponent_hit) = check_paddle(cfg, ball.position, velocity, world.opponent);
    if let Some(event) = opponent_hit {
        events.push(event);
    }
    if left_goal || right_goal {
        world.ball = None;
    } else {
        world.ball = Some(Ball { position: ball.position, velocity });
    }
    events
}

} // verus!
