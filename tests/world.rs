use rollback_breakout::components::{
    Ball, BallEntity, Count, PaddleSpeed, Team, Velocity, Wall, WallEntity, BALL_RADIUS,
};
use rollback_breakout::geometry::Vec2;
use rollback_breakout::setup::CELL_COUNT;
use rollback_breakout::timer::GameTimer;
use rollback_breakout::world::World;

#[test]
fn new_match_layout() {
    let w = World::new_match();
    assert_eq!(w.cells.len(), CELL_COUNT);
    assert_eq!(w.cells.iter().filter(|c| c.team == Team(0)).count(), 100);
    assert_eq!(w.cells[0].pos, Vec2 { x: -225_000, y: -25_000 });
    assert_eq!(w.cells[199].pos, Vec2 { x: 225_000, y: 475_000 });
    assert_eq!(w.walls.len(), 4);
    assert_eq!(w.paddles.len(), 2);
    assert_eq!(w.balls.len(), 2);
    assert_eq!(w.balls[0].ball.radius, BALL_RADIUS);
    assert_eq!(w.balls[1].velocity.0, Vec2 { x: -212_132, y: -212_132 });
    assert!(w.result.is_none());
}

#[test]
fn paddle_follows_its_team_input_and_stops_at_the_wall() {
    let mut w = World::new_match();
    w.step([2, 1]);
    assert_eq!(w.paddles[0].pos.x, 5_000);
    assert_eq!(w.paddles[1].pos.x, -5_000);
    for _ in 0..100 {
        w.step([2, 0]);
    }
    assert_eq!(w.paddles[0].pos.x, 250_000 - 50_000);
}

#[test]
fn team_without_a_ball_gets_one_served() {
    let mut w = World::new_match();
    w.balls.truncate(1);
    w.step([0, 0]);
    assert_eq!(w.balls.len(), 2);
    let waiting = w.balls[1];
    assert_eq!(waiting.team, Team(1));
    assert_eq!(waiting.pos, Vec2 { x: 0, y: 450_000 - 50_000 });
    assert!(waiting.respawning.is_some());
    for _ in 0..179 {
        w.step([0, 0]);
    }
    let served = w.balls.iter().find(|b| b.team == Team(1)).copied().expect("team 1 ball");
    assert!(served.respawning.is_none());
    assert_eq!(served.velocity.0, Vec2 { x: 0, y: -300_000 });
}

#[test]
fn finished_match_no_longer_changes() {
    let mut w = World::new_match();
    w.timer = GameTimer { remaining_ticks: 1 };
    w.step([0, 0]);
    let r = w.result.expect("result");
    assert_eq!(r.team0_blocks + r.team1_blocks, 200);
    let balls = w.balls.clone();
    w.step([2, 2]);
    assert_eq!(w.balls, balls);
}

#[test]
fn lone_ball_flies_diagonally_for_one_tick() {
    let mut w = World {
        balls: vec![BallEntity {
            ball: Ball { radius: BALL_RADIUS },
            team: Team(0),
            pos: Vec2 { x: 0, y: -300_000 },
            velocity: Velocity(Vec2 { x: 212_100, y: 212_100 }),
            respawning: None,
        }],
        paddles: vec![],
        cells: vec![],
        walls: vec![WallEntity {
            wall: Wall { half_size: Vec2 { x: 250_000, y: 500_000 } },
            team: Some(Team(0)),
            pos: Vec2 { x: 0, y: -1_100_000 },
        }],
        items: vec![],
        capture_count: Count(0),
        items_spawned: Count(0),
        paddle_speed: PaddleSpeed(300_000),
        timer: GameTimer { remaining_ticks: 7200 },
        result: None,
    };
    w.step([0, 0]);
    assert_eq!(w.balls.len(), 1);
    assert_eq!(w.balls[0].pos, Vec2 { x: 3_535, y: -296_465 });
    assert_eq!(w.balls[0].velocity.0, Vec2 { x: 212_100, y: 212_100 });
}

#[test]
fn tick_reports_a_ball_reaching_the_opposing_boundary() {
    let mut w = World::new_match();
    w.balls = vec![BallEntity {
        ball: Ball { radius: BALL_RADIUS },
        team: Team(1),
        pos: Vec2 { x: 100_000, y: -492_000 },
        velocity: Velocity(Vec2 { x: 0, y: -300_000 }),
        respawning: None,
    }];
    let events = w.step([0, 0]);
    assert_eq!(events.scored, vec![Team(1)]);
    assert!(events.cell_hits.is_empty());
    assert!(w.balls.iter().all(|b| b.respawning.is_some()));
}

#[test]
fn tick_reports_cell_hits_and_captures_the_cell() {
    let mut w = World::new_match();
    w.balls = vec![BallEntity {
        ball: Ball { radius: BALL_RADIUS },
        team: Team(0),
        pos: Vec2 { x: 25_000, y: -5_000 },
        velocity: Velocity(Vec2 { x: 0, y: 60_000 }),
        respawning: None,
    }];
    let events = w.step([0, 0]);
    assert_eq!(events.cell_hits.len(), 1);
    let hit = events.cell_hits[0];
    assert_eq!(hit.team, Team(0));
    assert_eq!(w.cells[hit.cell].team, Team(0));
    assert_eq!(w.cells[hit.cell].pos, Vec2 { x: 25_000, y: 25_000 });
    assert_eq!(w.capture_count, Count(1));
}
