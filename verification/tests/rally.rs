use pong_core::config::Config;
use pong_core::geometry::{collide, Collision, Rect, Vec2};
use pong_core::resolver::{
    bounce_off_paddle, bounce_off_walls, bump, check_paddle, process_collisions,
};
use pong_core::serve::ball_spawner;
use pong_core::simulation::fixed_tick;
use pong_core::timer::Timer;
use pong_core::world::{setup, Ball, CollisionEvent, Scoreboard, World};

fn v(x: i64, y: i64) -> Vec2 {
    Vec2 { x, y }
}

/// A world in which a ball is in flight and the serve timer rests.
fn in_flight(cfg: &Config, position: Vec2, velocity: Vec2) -> World {
    let mut world = setup(cfg);
    world.serve.timer.tick(cfg.serve_delay);
    world.serve.timer.tick(0);
    world.ball = Some(Ball { position, velocity });
    world
}

#[test]
fn center_serve() {
    let cfg = Config { ball_speed: 300, ..Config::classic() };
    assert!(cfg.is_valid());
    let mut world = setup(&cfg);
    assert_eq!(world.ball, None);
    ball_spawner(&cfg, &mut world, 500_000_000);
    assert_eq!(world.ball, Some(Ball { position: v(0, 0), velocity: v(-300, 0) }));
    let events = fixed_tick(&cfg, &mut world, &vec![]);
    assert_eq!(events, vec![]);
    assert_eq!(world.ball, Some(Ball { position: v(-5, 0), velocity: v(-300, 0) }));
}

#[test]
fn wall_bounce() {
    let cfg = Config::classic();
    let mut world = in_flight(&cfg, v(0, 280), v(0, 400));
    // The upper strip begins at 300; a ball of height 8 reaches it when its
    // centre has passed 296, which at 6 units a step is on the third step.
    assert_eq!(fixed_tick(&cfg, &mut world, &vec![]), vec![]);
    assert_eq!(world.ball, Some(Ball { position: v(0, 286), velocity: v(0, 400) }));
    assert_eq!(fixed_tick(&cfg, &mut world, &vec![]), vec![]);
    assert_eq!(world.ball, Some(Ball { position: v(0, 292), velocity: v(0, 400) }));
    assert_eq!(fixed_tick(&cfg, &mut world, &vec![]), vec![CollisionEvent::Bounce]);
    assert_eq!(world.ball, Some(Ball { position: v(0, 298), velocity: v(0, -400) }));
    assert_eq!(fixed_tick(&cfg, &mut world, &vec![]), vec![]);
    assert_eq!(world.ball, Some(Ball { position: v(0, 292), velocity: v(0, -400) }));
}

#[test]
fn wall_bounce_of_a_large_ball() {
    // A ball of height 30 at 286 reaches up to 301, into the strip at 300.
    let cfg = Config { ball_size: v(30, 30), ..Config::classic() };
    let mut world = in_flight(&cfg, v(0, 280), v(0, 400));
    assert_eq!(fixed_tick(&cfg, &mut world, &vec![]), vec![CollisionEvent::Bounce]);
    assert_eq!(world.ball, Some(Ball { position: v(0, 286), velocity: v(0, -400) }));
}

#[test]
fn wall_bounce_on_the_next_tick() {
    let cfg = Config::classic();
    let mut world = in_flight(&cfg, v(0, 292), v(0, 400));
    assert_eq!(fixed_tick(&cfg, &mut world, &vec![]), vec![CollisionEvent::Bounce]);
    assert_eq!(world.ball.unwrap().velocity, v(0, -400));
}

#[test]
fn goal() {
    let cfg = Config::classic();
    let mut world = in_flight(&cfg, v(-401, 0), v(-500, 0));
    assert!(world.serve.timer.finished);
    let before = world;
    let events = process_collisions(&cfg, &mut world);
    assert_eq!(events, vec![CollisionEvent::Goal]);
    assert_eq!(world.scoreboard, Scoreboard { player: 0, opponent: 1 });
    assert_eq!(world.ball, None);
    assert_eq!(
        world.serve.timer,
        Timer { duration: 500_000_000, elapsed: 0, finished: false, just_finished: false }
    );
    assert_eq!(world.serve.player_turn, before.serve.player_turn);
    assert_eq!(world.player, before.player);
    assert_eq!(world.opponent, before.opponent);
}

#[test]
fn goal_on_the_right_counts_for_the_player() {
    let cfg = Config::classic();
    let mut world = in_flight(&cfg, v(401, -200), v(500, 30));
    world.scoreboard = Scoreboard { player: 4, opponent: 7 };
    let events = process_collisions(&cfg, &mut world);
    assert_eq!(events, vec![CollisionEvent::Goal]);
    assert_eq!(world.scoreboard, Scoreboard { player: 5, opponent: 7 });
    assert_eq!(world.ball, None);
    assert!(!world.serve.timer.finished);
    assert_eq!(world.serve.timer.elapsed, 0);
}

#[test]
fn gutter_begins_where_the_ball_first_overlaps_it() {
    let cfg = Config::classic();
    // The left gutter spans -410 to -384; the ball is 8 wide.
    let mut world = in_flight(&cfg, v(-380, 100), v(-500, 0));
    assert_eq!(process_collisions(&cfg, &mut world), vec![]);
    assert!(world.ball.is_some());
    let mut world = in_flight(&cfg, v(-381, 100), v(-500, 0));
    assert_eq!(process_collisions(&cfg, &mut world), vec![CollisionEvent::Goal]);
    assert!(world.ball.is_none());
    // The right gutter spans 387 to 413.
    let mut world = in_flight(&cfg, v(383, 100), v(500, 0));
    assert_eq!(process_collisions(&cfg, &mut world), vec![]);
    let mut world = in_flight(&cfg, v(384, 100), v(500, 0));
    assert_eq!(process_collisions(&cfg, &mut world), vec![CollisionEvent::Goal]);
    assert_eq!(world.scoreboard, Scoreboard { player: 1, opponent: 0 });
}

#[test]
fn gutters_are_where_the_configuration_puts_them() {
    let classic = Config::classic();
    let cfg = Config {
        right_gutter: Rect { centre: v(397, 0), size: v(26, 600) },
        ..classic
    };
    assert!(cfg.is_valid());
    let mut world = in_flight(&cfg, v(381, 100), v(500, 0));
    assert_eq!(process_collisions(&cfg, &mut world), vec![CollisionEvent::Goal]);
    assert_eq!(world.scoreboard, Scoreboard { player: 1, opponent: 0 });
    let mut world = in_flight(&classic, v(381, 100), v(500, 0));
    assert_eq!(process_collisions(&classic, &mut world), vec![]);
}

#[test]
fn ball_across_both_walls_turns_once() {
    let cfg = Config { ball_size: v(8, 700), ..Config::classic() };
    assert!(cfg.is_valid());
    let mut world = in_flight(&cfg, v(0, 0), v(500, 90));
    assert_eq!(process_collisions(&cfg, &mut world), vec![CollisionEvent::Bounce]);
    assert_eq!(world.ball, Some(Ball { position: v(0, 0), velocity: v(500, -90) }));
}

#[test]
fn serve_on_a_finer_grid_moves_by_exact_steps() {
    let cfg = Config::classic().scaled(60).unwrap();
    let mut world = setup(&cfg);
    assert_eq!(world.player, v(-22440, 0));
    ball_spawner(&cfg, &mut world, 500_000_000);
    assert_eq!(world.ball, Some(Ball { position: v(0, 0), velocity: v(-30000, 0) }));
    fixed_tick(&cfg, &mut world, &vec![]);
    assert_eq!(world.ball, Some(Ball { position: v(-500, 0), velocity: v(-30000, 0) }));
}

#[test]
fn no_ball_no_collisions() {
    let cfg = Config::classic();
    let mut world = setup(&cfg);
    let before = world;
    assert_eq!(process_collisions(&cfg, &mut world), vec![]);
    assert_eq!(world, before);
}

#[test]
fn ball_in_the_open_is_left_alone() {
    let cfg = Config::classic();
    let mut world = in_flight(&cfg, v(12, -40), v(500, -77));
    let before = world;
    assert_eq!(process_collisions(&cfg, &mut world), vec![]);
    assert_eq!(world, before);
}

#[test]
fn wall_inverts_vertical_velocity_only() {
    let cfg = Config::classic();
    let ball = Ball { position: v(100, 297), velocity: v(500, 123) };
    assert_eq!(bounce_off_walls(&cfg, &ball), (v(500, -123), true));
    let ball = Ball { position: v(-100, -297), velocity: v(-500, -123) };
    assert_eq!(bounce_off_walls(&cfg, &ball), (v(-500, 123), true));
    let ball = Ball { position: v(100, 296), velocity: v(500, 123) };
    assert_eq!(bounce_off_walls(&cfg, &ball), (v(500, 123), false));

    let mut world = in_flight(&cfg, v(100, -297), v(500, -123));
    assert_eq!(process_collisions(&cfg, &mut world), vec![CollisionEvent::Bounce]);
    assert_eq!(world.ball, Some(Ball { position: v(100, -297), velocity: v(500, 123) }));
}

#[test]
fn ball_in_a_wall_on_two_steps_turns_twice() {
    let cfg = Config::classic();
    let mut world = in_flight(&cfg, v(0, 320), v(500, 60));
    assert_eq!(process_collisions(&cfg, &mut world), vec![CollisionEvent::Bounce]);
    assert_eq!(world.ball.unwrap().velocity, v(500, -60));
    assert_eq!(process_collisions(&cfg, &mut world), vec![CollisionEvent::Bounce]);
    assert_eq!(world.ball.unwrap().velocity, v(500, 60));
}

#[test]
fn paddle_sends_the_ball_back_with_spin() {
    let cfg = Config::classic();
    // The player's paddle spans -377 to -371; the ball comes from the right.
    let mut world = in_flight(&cfg, v(-370, 10), v(-500, 0));
    assert_eq!(
        collide(v(-370, 10), cfg.ball_size, world.player, cfg.paddle_size),
        Some(Collision::Right)
    );
    assert_eq!(process_collisions(&cfg, &mut world), vec![CollisionEvent::Bounce]);
    assert_eq!(world.ball, Some(Ball { position: v(-370, 10), velocity: v(500, 220) }));

    let mut world = in_flight(&cfg, v(370, -7), v(500, 90));
    world.opponent.y = 5;
    assert_eq!(
        collide(v(370, -7), cfg.ball_size, world.opponent, cfg.paddle_size),
        Some(Collision::Left)
    );
    assert_eq!(process_collisions(&cfg, &mut world), vec![CollisionEvent::Bounce]);
    assert_eq!(world.ball, Some(Ball { position: v(370, -7), velocity: v(-500, -264) }));
}

#[test]
fn paddle_struck_on_top_or_from_below_does_nothing() {
    let cfg = Config::classic();
    let mut world = in_flight(&cfg, v(-374, 25), v(-500, -300));
    assert_eq!(
        collide(v(-374, 25), cfg.ball_size, world.player, cfg.paddle_size),
        Some(Collision::Top)
    );
    let before = world;
    assert_eq!(process_collisions(&cfg, &mut world), vec![]);
    assert_eq!(world, before);

    let mut world = in_flight(&cfg, v(374, -25), v(500, 300));
    assert_eq!(
        collide(v(374, -25), cfg.ball_size, world.opponent, cfg.paddle_size),
        Some(Collision::Bottom)
    );
    let before = world;
    assert_eq!(process_collisions(&cfg, &mut world), vec![]);
    assert_eq!(world, before);
}

#[test]
fn bounce_off_paddle_by_classification() {
    let cfg = Config::classic();
    let ball = v(-370, 10);
    let paddle = v(-374, 0);
    let hit = collide(ball, cfg.ball_size, paddle, cfg.paddle_size);
    assert_eq!(
        bounce_off_paddle(&cfg, ball, v(-500, 33), paddle, hit),
        (v(500, 220), Some(CollisionEvent::Bounce))
    );
    let ball = v(-374, 25);
    let hit = collide(ball, cfg.ball_size, paddle, cfg.paddle_size);
    assert_eq!(hit, Some(Collision::Top));
    assert_eq!(bounce_off_paddle(&cfg, ball, v(-500, 33), paddle, hit), (v(-500, 33), None));
    let ball = v(0, 0);
    let hit = collide(ball, cfg.ball_size, paddle, cfg.paddle_size);
    assert_eq!(hit, None);
    assert_eq!(bounce_off_paddle(&cfg, ball, v(-500, 33), paddle, hit), (v(-500, 33), None));
    assert_eq!(
        check_paddle(&cfg, v(-378, -20), v(500, 1), paddle),
        (v(-500, -440), Some(CollisionEvent::Bounce))
    );
}

#[test]
fn ball_inside_a_large_paddle_is_not_deflected() {
    let cfg = Config { paddle_size: v(60, 46), ..Config::classic() };
    let paddle = v(-374, 0);
    assert_eq!(collide(v(-374, 3), cfg.ball_size, paddle, cfg.paddle_size), Some(Collision::Inside));
    assert_eq!(check_paddle(&cfg, v(-374, 3), v(500, 1), paddle), (v(500, 1), None));
}

#[test]
fn wall_and_goal_in_one_step() {
    let cfg = Config::classic();
    let mut world = in_flight(&cfg, v(-401, 297), v(-500, 200));
    let events = process_collisions(&cfg, &mut world);
    assert_eq!(events, vec![CollisionEvent::Bounce, CollisionEvent::Goal]);
    assert_eq!(world.ball, None);
    assert_eq!(world.scoreboard, Scoreboard { player: 0, opponent: 1 });
}

#[test]
fn goal_and_paddle_in_one_step() {
    let cfg = Config { ball_size: v(9, 8), ..Config::classic() };
    // 9 wide at -381: overlaps the gutter up to -384 and the paddle from -377.
    let mut world = in_flight(&cfg, v(-381, 0), v(-500, 0));
    let events = process_collisions(&cfg, &mut world);
    assert_eq!(events, vec![CollisionEvent::Goal, CollisionEvent::Bounce]);
    assert_eq!(world.ball, None);
    assert_eq!(world.scoreboard, Scoreboard { player: 0, opponent: 1 });
}

#[test]
fn both_gutters_in_one_step_score_for_both() {
    let cfg = Config { ball_size: v(900, 8), ..Config::classic() };
    assert!(cfg.is_valid());
    let mut world = in_flight(&cfg, v(0, 0), v(500, 0));
    let events = process_collisions(&cfg, &mut world);
    assert_eq!(events, vec![CollisionEvent::Goal, CollisionEvent::Goal]);
    assert_eq!(world.scoreboard, Scoreboard { player: 1, opponent: 1 });
    assert_eq!(world.ball, None);
    assert_eq!(world.serve.timer.elapsed, 0);
    assert!(!world.serve.timer.finished);
}

#[test]
fn both_paddles_in_one_step_turn_the_ball_twice() {
    let cfg = Config::classic();
    let mut world = in_flight(&cfg, v(4, 10), v(500, 0));
    world.player = v(0, 0);
    world.opponent = v(0, 5);
    let events = process_collisions(&cfg, &mut world);
    assert_eq!(events, vec![CollisionEvent::Bounce, CollisionEvent::Bounce]);
    assert_eq!(world.ball.unwrap().velocity, v(500, 110));
}

#[test]
fn full_counter_stays() {
    assert_eq!(bump(0), 1);
    assert_eq!(bump(65534), 65535);
    assert_eq!(bump(65535), 65535);
    let cfg = Config::classic();
    let mut world = in_flight(&cfg, v(-401, 0), v(-500, 0));
    world.scoreboard = Scoreboard { player: 3, opponent: u16::MAX };
    process_collisions(&cfg, &mut world);
    assert_eq!(world.scoreboard, Scoreboard { player: 3, opponent: u16::MAX });
}

#[test]
fn serve_waits_for_the_delay() {
    let cfg = Config::classic();
    let mut world = setup(&cfg);
    ball_spawner(&cfg, &mut world, 499_999_999);
    assert_eq!(world.ball, None);
    assert!(world.serve.player_turn);
    ball_spawner(&cfg, &mut world, 1);
    assert_eq!(world.ball, Some(Ball { position: v(0, 0), velocity: v(-500, 0) }));
    assert!(!world.serve.player_turn);
    assert!(world.serve.timer.finished);
}

#[test]
fn serve_happens_once() {
    let cfg = Config::classic();
    let mut world = setup(&cfg);
    ball_spawner(&cfg, &mut world, 600_000_000);
    world.ball = Some(Ball { position: v(50, 60), velocity: v(-500, 70) });
    let before = world;
    ball_spawner(&cfg, &mut world, 600_000_000);
    ball_spawner(&cfg, &mut world, u64::MAX);
    assert_eq!(world.ball, before.ball);
    assert_eq!(world.serve.player_turn, before.serve.player_turn);
    assert!(world.serve.timer.finished);
    assert!(!world.serve.timer.just_finished);
}

#[test]
fn rally_goal_and_next_serve() {
    let cfg = Config::classic();
    let mut world = setup(&cfg);
    ball_spawner(&cfg, &mut world, 500_000_000);
    assert_eq!(world.ball.unwrap().velocity, v(-500, 0));

    // The player steps out of the way; the ball runs into the left gutter.
    let mut steps: u32 = 1;
    let mut events = fixed_tick(&cfg, &mut world, &vec![v(0, 1000)]);
    assert_eq!(world.player.y, -272);
    while events.is_empty() && steps < 100 {
        assert_eq!(world.ball.unwrap().position, v(-8 * i64::from(steps), 0));
        events = fixed_tick(&cfg, &mut world, &vec![]);
        steps += 1;
    }
    assert_eq!(steps, 48);
    assert_eq!(events, vec![CollisionEvent::Goal]);
    assert_eq!(world.ball, None);
    assert_eq!(world.scoreboard, Scoreboard { player: 0, opponent: 1 });
    assert_eq!(world.serve.timer.elapsed, 0);

    // No ball while the delay runs, whatever else happens.
    ball_spawner(&cfg, &mut world, 250_000_000);
    assert_eq!(fixed_tick(&cfg, &mut world, &vec![v(0, -20)]), vec![]);
    assert_eq!(world.ball, None);
    assert_eq!(world.opponent_velocity, v(0, 0));
    ball_spawner(&cfg, &mut world, 249_999_999);
    assert_eq!(world.ball, None);

    // The next serve goes the other way.
    ball_spawner(&cfg, &mut world, 1);
    assert_eq!(world.ball, Some(Ball { position: v(0, 0), velocity: v(500, 0) }));
    assert!(world.serve.player_turn);
    assert_eq!(world.scoreboard, Scoreboard { player: 0, opponent: 1 });
}

#[test]
fn rally_off_the_opponent() {
    let cfg = Config::classic();
    let mut world = in_flight(&cfg, v(360, 0), v(500, 0));
    // 368 after the step: the ball reaches from 364 to 372, the paddle from 371.
    let events = fixed_tick(&cfg, &mut world, &vec![]);
    assert_eq!(events, vec![CollisionEvent::Bounce]);
    assert_eq!(world.ball, Some(Ball { position: v(368, 0), velocity: v(-500, 0) }));
    assert_eq!(world.opponent, v(374, 0));
}

#[test]
fn scores_never_fall_over_a_long_match() {
    let cfg = Config::classic();
    let mut world = setup(&cfg);
    let mut last = world.scoreboard;
    let mut goals: u16 = 0;
    for step in 0..6000u32 {
        ball_spawner(&cfg, &mut world, 16_666_667);
        let swing: i64 = if step % 90 < 45 { 9 } else { -9 };
        let events = fixed_tick(&cfg, &mut world, &vec![v(1, swing)]);
        for e in events.iter() {
            if *e == CollisionEvent::Goal {
                goals += 1;
            }
        }
        assert!(world.scoreboard.player >= last.player);
        assert!(world.scoreboard.opponent >= last.opponent);
        assert!(world.player.y >= -272 && world.player.y <= 272);
        assert!(world.opponent_velocity.y >= -450 && world.opponent_velocity.y <= 450);
        assert!(world.ball.is_none() || world.serve.timer.finished);
        assert!(world.is_valid());
        last = world.scoreboard;
    }
    assert_eq!(world.scoreboard.player + world.scoreboard.opponent, goals);
}

#[test]
fn serve_ball_alternates_sides() {
    let cfg = Config::classic();
    let mut world = setup(&cfg);
    let before = world;
    pong_core::serve::serve_ball(&cfg, &mut world);
    assert_eq!(world.ball, Some(Ball { position: v(0, 0), velocity: v(-500, 0) }));
    assert!(!world.serve.player_turn);
    assert_eq!(world.serve.timer, before.serve.timer);
    assert_eq!(world.scoreboard, before.scoreboard);
    pong_core::serve::serve_ball(&cfg, &mut world);
    assert_eq!(world.ball, Some(Ball { position: v(0, 0), velocity: v(500, 0) }));
    assert!(world.serve.player_turn);
}
