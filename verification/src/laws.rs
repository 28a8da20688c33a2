//! What holds of every match, proved from the definitions of the steps.

use vstd::prelude::*;
use crate::config::Config;
use crate::geometry::{collide_spec, Collision, Vec2};
use crate::opponent::{approaching, pursuing, pursuit_speed};
use crate::player::{steered, steered_world};
use crate::resolver::{
    hits_paddle, hits_wall, in_left_gutter, in_right_gutter, lemma_spin_bounded, paddle_bounced,
    paddle_checked, resolved, wall_bounced,
};
use crate::serve::{after_frame, serve_due, served_ball};
use crate::simulation::{advanced_by, after_tick, before_collisions, played, Advance};
use crate::timer::Timer;
use crate::world::{bumped, Ball, World};

verus! {

/// A ball that overlaps a wall strip leaves the wall check with its vertical
/// velocity negated and its horizontal velocity as it was. If it touches
/// neither gutter nor the side of a paddle, that is its velocity after the step.
pub proof fn law_wall_bounce_inverts(cfg: Config, world: World, ball: Ball)
    requires
        cfg.wf(),
        ball.wf(),
        world.ball == Some(ball),
        hits_wall(cfg, ball.position),
    ensures
        wall_bounced(cfg, ball).x == ball.velocity.x,
        wall_bounced(cfg, ball).y == -ball.velocity.y,
        !in_left_gutter(cfg, ball.position) && !in_right_gutter(cfg, ball.position) && !hits_paddle(
            cfg,
            ball.position,
            world.player,
        ) && !hits_paddle(cfg, ball.position, world.opponent) ==> resolved(cfg, world).ball == Some(
            Ball { position: ball.position, velocity: wall_bounced(cfg, ball) },
        ),
{
}

/// A paddle that the ball strikes on its left or right side negates the
/// ball's horizontal velocity and sets the vertical one to the ball's height
/// over the paddle's centre times the steepness.
pub proof fn law_paddle_check_bounces(cfg: Config, position: Vec2, velocity: Vec2, paddle: Vec2)
    requires
        cfg.wf(),
        velocity.x > i64::MIN,
        hits_paddle(cfg, position, paddle),
    ensures
        paddle_checked(cfg, position, velocity, paddle).x == -velocity.x,
        paddle_checked(cfg, position, velocity, paddle).y == (position.y - paddle.y)
            * cfg.bounce_steepness,
{
    lemma_spin_bounded(cfg, position, paddle);
}

/// A ball that one paddle, and only one, sends back leaves the step with its
/// horizontal velocity negated and with the spin of the strike as its
/// vertical velocity, provided that it touches no gutter.
pub proof fn law_paddle_bounce(cfg: Config, world: World, ball: Ball)
    requires
        cfg.wf(),
        ball.wf(),
        world.ball == Some(ball),
        hits_paddle(cfg, ball.position, world.player) != hits_paddle(
            cfg,
            ball.position,
            world.opponent,
        ),
        !in_left_gutter(cfg, ball.position),
        !in_right_gutter(cfg, ball.position),
    ensures
        resolved(cfg, world).ball is Some,
        resolved(cfg, world).ball->Some_0.position == ball.position,
        resolved(cfg, world).ball->Some_0.velocity.x == -ball.velocity.x,
        resolved(cfg, world).ball->Some_0.velocity.y == (ball.position.y - (if hits_paddle(
            cfg,
            ball.position,
            world.player,
        ) {
            world.player.y
        } else {
            world.opponent.y
        })) * cfg.bounce_steepness,
{
    let paddle = if hits_paddle(cfg, ball.position, world.player) {
        world.player
    } else {
        world.opponent
    };
    lemma_spin_bounded(cfg, ball.position, paddle);
}

/// A paddle that the ball does not strike on the left or the right side, be
/// it struck on top, from below, or not at all, leaves the velocity alone.
pub proof fn law_paddle_side_filter(
    cfg: Config,
    position: Vec2,
    velocity: Vec2,
    paddle: Vec2,
    collision: Option<Collision>,
)
    requires
        collision != Some(Collision::Left),
        collision != Some(Collision::Right),
    ensures
        paddle_bounced(cfg, position, velocity, paddle, collision) == velocity,
        collision == collide_spec(position, cfg.ball_size, paddle, cfg.paddle_size)
            ==> paddle_checked(cfg, position, velocity, paddle) == velocity,
{
}

/// The collision checks add one to the player's count exactly if the ball
/// overlaps the right gutter, one to the opponent's exactly if it overlaps
/// the left one, and change no count otherwise. A count that has reached the
/// largest `u16` stays.
pub proof fn law_goal_counts_once(cfg: Config, world: World)
    ensures
        world.ball is Some && in_right_gutter(cfg, world.ball->Some_0.position) ==> resolved(
            cfg,
            world,
        ).scoreboard.player == bumped(world.scoreboard.player),
        !(world.ball is Some && in_right_gutter(cfg, world.ball->Some_0.position)) ==> resolved(
            cfg,
            world,
        ).scoreboard.player == world.scoreboard.player,
        world.ball is Some && in_left_gutter(cfg, world.ball->Some_0.position) ==> resolved(
            cfg,
            world,
        ).scoreboard.opponent == bumped(world.scoreboard.opponent),
        !(world.ball is Some && in_left_gutter(cfg, world.ball->Some_0.position)) ==> resolved(
            cfg,
            world,
        ).scoreboard.opponent == world.scoreboard.opponent,
        world.scoreboard.player < u16::MAX ==> bumped(world.scoreboard.player)
            == world.scoreboard.player + 1,
        world.scoreboard.opponent < u16::MAX ==> bumped(world.scoreboard.opponent)
            == world.scoreboard.opponent + 1,
{
}

/// No single advance lowers a count, and only the collision checks of a
/// fixed step can raise one.
pub proof fn law_score_step(cfg: Config, world: World, advance: Advance)
    ensures
        advanced_by(cfg, world, advance).scoreboard.player >= world.scoreboard.player,
        advanced_by(cfg, world, advance).scoreboard.opponent >= world.scoreboard.opponent,
        advance is Frame ==> advanced_by(cfg, world, advance).scoreboard == world.scoreboard,
{
}

/// However a match is advanced, neither count ever falls.
pub proof fn law_score_never_falls(cfg: Config, world: World, advances: Seq<Advance>)
    ensures
        played(cfg, world, advances).scoreboard.player >= world.scoreboard.player,
        played(cfg, world, advances).scoreboard.opponent >= world.scoreboard.opponent,
    decreases advances.len(),
{
    if advances.len() > 0 {
        law_score_never_falls(cfg, world, advances.drop_last());
        law_score_step(cfg, played(cfg, world, advances.drop_last()), advances.last());
    }
}

/// A goal takes the ball away and starts the serve timer again from zero.
pub proof fn law_goal_removes_ball(cfg: Config, world: World)
    requires
        world.ball is Some,
        in_left_gutter(cfg, world.ball->Some_0.position) || in_right_gutter(
            cfg,
            world.ball->Some_0.position,
        ),
    ensures
        resolved(cfg, world).ball is None,
        resolved(cfg, world).serve.timer == world.serve.timer.restarted(),
        resolved(cfg, world).serve.timer.elapsed == 0,
        !resolved(cfg, world).serve.timer.finished,
        resolved(cfg, world).serve.player_turn == world.serve.player_turn,
{
}

/// A single advance keeps a well-formed world well formed, and keeps the
/// ball away while the serve timer runs.
pub proof fn law_step_keeps_invariants(cfg: Config, world: World, advance: Advance)
    requires
        cfg.wf(),
        world.wf(),
    ensures
        advanced_by(cfg, world, advance).wf(),
        world.lifecycle_ok() ==> advanced_by(cfg, world, advance).lifecycle_ok(),
{
    match advance {
        Advance::Frame(delta) => {},
        Advance::Tick(deltas) => {
            let before = before_collisions(cfg, world, deltas);
            assert(before.wf());
            assert(world.lifecycle_ok() ==> before.lifecycle_ok());
            if before.ball is Some {
                let ball = before.ball->Some_0;
                let bounced = wall_bounced(cfg, ball);
                if hits_paddle(cfg, ball.position, before.player) {
                    lemma_spin_bounded(cfg, ball.position, before.player);
                }
                let checked = paddle_checked(cfg, ball.position, bounced, before.player);
                assert(checked.x > i64::MIN && checked.y > i64::MIN);
                if hits_paddle(cfg, ball.position, before.opponent) {
                    lemma_spin_bounded(cfg, ball.position, before.opponent);
                }
            }
        },
    }
}

/// Whatever the advances, a well-formed world stays well formed.
pub proof fn law_stays_well_formed(cfg: Config, world: World, advances: Seq<Advance>)
    requires
        cfg.wf(),
        world.wf(),
    ensures
        played(cfg, world, advances).wf(),
    decreases advances.len(),
{
    if advances.len() > 0 {
        law_stays_well_formed(cfg, world, advances.drop_last());
        law_step_keeps_invariants(cfg, played(cfg, world, advances.drop_last()), advances.last());
    }
}

/// Whatever the advances, a world that is well formed and has no ball while
/// its serve timer runs stays so.
pub proof fn law_no_ball_while_timer_runs(cfg: Config, world: World, advances: Seq<Advance>)
    requires
        cfg.wf(),
        world.wf(),
        world.lifecycle_ok(),
    ensures
        played(cfg, world, advances).wf(),
        played(cfg, world, advances).lifecycle_ok(),
        !played(cfg, world, advances).serve.timer.finished ==> played(
            cfg,
            world,
            advances,
        ).ball is None,
    decreases advances.len(),
{
    if advances.len() > 0 {
        law_no_ball_while_timer_runs(cfg, world, advances.drop_last());
        law_step_keeps_invariants(cfg, played(cfg, world, advances.drop_last()), advances.last());
    }
}

/// A match starts in a world that is well formed, without a ball, with the
/// serve timer at the start of its delay and the first serve going to the
/// player's side.
pub proof fn law_match_starts_ready(cfg: Config)
    requires
        cfg.wf(),
    ensures
        World::initial(cfg).wf(),
        World::initial(cfg).lifecycle_ok(),
        World::initial(cfg).ball is None,
        World::initial(cfg).serve.timer == Timer::armed(cfg.serve_delay),
        World::initial(cfg).serve.player_turn,
{
}

/// The real time that the frames among the advances took, in nanoseconds.
pub open spec fn frame_time(advances: Seq<Advance>) -> int
    decreases advances.len(),
{
    if advances.len() == 0 {
        0
    } else {
        frame_time(advances.drop_last()) + match advances.last() {
            Advance::Frame(delta) => delta as int,
            Advance::Tick(_) => 0,
        }
    }
}

/// Frames take no negative time.
proof fn lemma_frame_time_not_negative(advances: Seq<Advance>)
    ensures
        frame_time(advances) >= 0,
    decreases advances.len(),
{
    if advances.len() > 0 {
        lemma_frame_time_not_negative(advances.drop_last());
    }
}

/// Once the ball is gone and the serve timer runs, as after a goal or at
/// the start of a match, the ball stays away for as long as the frames
/// since then have taken less than what is left of the delay, however many
/// fixed steps fall between them; meanwhile the timer shows exactly the time
/// of those frames, and neither the score nor the turn changes. The frame
/// that completes the delay serves the ball.
pub proof fn law_ball_lifecycle(cfg: Config, world: World, advances: Seq<Advance>, delta: u64)
    requires
        cfg.wf(),
        world.ball is None,
        world.serve.timer.wf(),
        !world.serve.timer.finished,
        world.serve.timer.elapsed + frame_time(advances) < world.serve.timer.duration,
    ensures
        played(cfg, world, advances).ball is None,
        !played(cfg, world, advances).serve.timer.finished,
        played(cfg, world, advances).serve.timer.elapsed == world.serve.timer.elapsed + frame_time(
            advances,
        ),
        played(cfg, world, advances).serve.timer.duration == world.serve.timer.duration,
        played(cfg, world, advances).serve.player_turn == world.serve.player_turn,
        played(cfg, world, advances).scoreboard == world.scoreboard,
        serve_due(played(cfg, world, advances), delta) <==> world.serve.timer.elapsed + frame_time(
            advances,
        ) + delta >= world.serve.timer.duration,
        serve_due(played(cfg, world, advances), delta) ==> after_frame(
            cfg,
            played(cfg, world, advances),
            delta,
        ).ball == Some(served_ball(cfg, world.serve.player_turn)),
        !serve_due(played(cfg, world, advances), delta) ==> after_frame(
            cfg,
            played(cfg, world, advances),
            delta,
        ).ball is None,
    decreases advances.len(),
{
    if advances.len() > 0 {
        lemma_frame_time_not_negative(advances.drop_last());
        law_ball_lifecycle(cfg, world, advances.drop_last(), delta);
    }
}

/// While the serve timer has not reached its duration, a frame serves no
/// ball. On the frame on which it does, a ball appears where there was none,
/// at the centre, level, with the configured speed toward the side whose
/// turn it is; the turn passes on, so that the next serve goes the other
/// way; and no later frame serves again before a goal restarts the timer.
pub proof fn law_serve_after_delay(cfg: Config, world: World, delta: u64, later: u64)
    requires
        cfg.wf(),
        world.lifecycle_ok(),
    ensures
        !serve_due(world, delta) ==> after_frame(cfg, world, delta).ball == world.ball,
        serve_due(world, delta) ==> {
            let next = after_frame(cfg, world, delta);
            &&& world.ball is None
            &&& next.ball == Some(served_ball(cfg, world.serve.player_turn))
            &&& next.ball->Some_0.position == (Vec2 { x: 0, y: 0 })
            &&& next.ball->Some_0.velocity.y == 0
            &&& next.ball->Some_0.velocity.x == if world.serve.player_turn {
                -cfg.ball_speed
            } else {
                cfg.ball_speed as int
            }
            &&& next.serve.player_turn == !world.serve.player_turn
            &&& served_ball(cfg, next.serve.player_turn).velocity.x == -next.ball->Some_0.velocity.x
            &&& !serve_due(next, later)
            &&& after_frame(cfg, next, later).ball == next.ball
        },
{
}

/// A fixed step serves no ball, and without a ball it leaves score, turn and
/// serve timer as they are: only frames bring the next serve nearer.
pub proof fn law_tick_serves_nothing(cfg: Config, world: World, deltas: Seq<Vec2>)
    requires
        world.ball is None,
    ensures
        after_tick(cfg, world, deltas).ball is None,
        after_tick(cfg, world, deltas).serve == world.serve,
        after_tick(cfg, world, deltas).scoreboard == world.scoreboard,
{
}

/// The delay runs on real time however it is cut into frames: two frames
/// bring the timer where one frame of their joint length brings it, and a
/// timer that has run for less than its duration has not finished.
pub proof fn law_delay_adds_up(timer: Timer, first: u64, second: u64)
    requires
        timer.wf(),
        !timer.finished,
        first + second <= u64::MAX,
    ensures
        timer.ticked(first).ticked(second).finished == timer.ticked(
            (first + second) as u64,
        ).finished,
        timer.ticked(first).ticked(second).elapsed == timer.ticked((first + second) as u64).elapsed,
        timer.ticked(first).ticked(second).finished <==> timer.elapsed + first + second
            >= timer.duration,
        timer.ticked(first).just_finished || timer.ticked(first).ticked(second).just_finished
            <==> timer.elapsed + first + second >= timer.duration,
        !(timer.ticked(first).just_finished && timer.ticked(first).ticked(second).just_finished),
{
}

/// Whatever the pointer did, the player's paddle ends up within its reach
/// of the court's centre line; and a paddle that is there stays where it is
/// when the pointer did nothing.
pub proof fn law_paddle_stays_in_court(cfg: Config, world: World, deltas: Seq<Vec2>)
    requires
        cfg.wf(),
    ensures
        -cfg.player_reach() <= steered(cfg, world.player.y, deltas) <= cfg.player_reach(),
        -cfg.player_reach() <= steered_world(cfg, world, deltas).player.y <= cfg.player_reach(),
        -cfg.player_reach() <= after_tick(cfg, world, deltas).player.y <= cfg.player_reach(),
        -cfg.player_reach() <= world.player.y <= cfg.player_reach() ==> steered_world(
            cfg,
            world,
            Seq::empty(),
        ) == world,
{
}

/// The opponent's paddle is never given more than its largest speed, and
/// none at all unless a ball approaches.
pub proof fn law_pursuit_saturates(cfg: Config, world: World)
    requires
        cfg.wf(),
    ensures
        -cfg.ai_max_speed <= pursuit_speed(cfg, world.ball, world.opponent) <= cfg.ai_max_speed,
        -cfg.ai_max_speed <= pursuing(cfg, world).opponent_velocity.y <= cfg.ai_max_speed,
        !approaching(world.ball) ==> pursuing(cfg, world).opponent_velocity.y == 0,
{
}

/// The ball, if there is one, moves sideways at the configured speed.
pub open spec fn at_full_speed(cfg: Config, world: World) -> bool {
    world.ball is Some ==> {
        ||| world.ball->Some_0.velocity.x == cfg.ball_speed
        ||| world.ball->Some_0.velocity.x == -cfg.ball_speed
    }
}

/// No advance changes the horizontal speed of the ball, only its direction:
/// a ball is served at the configured speed and keeps it while it exists,
/// so its velocity is never zero.
pub proof fn law_ball_keeps_speed(cfg: Config, world: World, advances: Seq<Advance>)
    requires
        cfg.wf(),
        world.wf(),
        at_full_speed(cfg, world),
    ensures
        at_full_speed(cfg, played(cfg, world, advances)),
        played(cfg, world, advances).ball is Some ==> played(
            cfg,
            world,
            advances,
        ).ball->Some_0.velocity.x != 0,
    decreases advances.len(),
{
    if advances.len() > 0 {
        let before = played(cfg, world, advances.drop_last());
        law_ball_keeps_speed(cfg, world, advances.drop_last());
        law_stays_well_formed(cfg, world, advances.drop_last());
        law_step_keeps_invariants(cfg, before, advances.last());
    }
}

/// The paddles move up and down only: as long as the opponent's paddle has
/// no horizontal velocity, which no advance gives it, neither paddle's
/// horizontal position changes.
pub proof fn law_paddles_keep_their_sides(cfg: Config, world: World, advances: Seq<Advance>)
    requires
        cfg.wf(),
        world.opponent_velocity.x == 0,
    ensures
        played(cfg, world, advances).player.x == world.player.x,
        played(cfg, world, advances).opponent.x == world.opponent.x,
        played(cfg, world, advances).opponent_velocity.x == 0,
    decreases advances.len(),
{
    if advances.len() > 0 {
        law_paddles_keep_their_sides(cfg, world, advances.drop_last());
    }
}

} // verus!
