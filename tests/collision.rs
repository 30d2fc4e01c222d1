use rollback_breakout::collision::{check_collision, resolve_ball, Outcome};
use rollback_breakout::components::{
    Ball, BallEntity, Cell, CellEntity, Paddle, PaddleEntity, Team, Velocity, Wall, WallEntity,
    BALL_RADIUS,
};
use rollback_breakout::geometry::{isqrt, Vec2};
use rollback_breakout::physics::apply_velocity;
use rollback_breakout::trig::{cosine, sine};

fn ball(team: usize, x: i64, y: i64, vx: i64, vy: i64) -> BallEntity {
    BallEntity {
        ball: Ball { radius: BALL_RADIUS },
        team: Team(team),
        pos: Vec2 { x, y },
        velocity: Velocity(Vec2 { x: vx, y: vy }),
        respawning: None,
    }
}

fn paddle(team: usize, x: i64, y: i64) -> PaddleEntity {
    PaddleEntity { paddle: Paddle { half_size: Vec2 { x: 50_000, y: 5_000 } }, team: Team(team), pos: Vec2 { x, y } }
}

fn wall(team: Option<usize>, x: i64, y: i64, hx: i64, hy: i64) -> WallEntity {
    WallEntity { wall: Wall { half_size: Vec2 { x: hx, y: hy } }, team: team.map(Team), pos: Vec2 { x, y } }
}

#[test]
fn diagonal_flight_without_contact_over_one_tick() {
    let mut balls = vec![ball(0, 0, -300_000, 212_100, 212_100)];
    let walls = vec![wall(Some(0), 0, -1_100_000, 250_000, 500_000)];
    apply_velocity(&mut balls);
    let (out, events, scored) = check_collision(&balls, &walls, &vec![], &vec![]);
    assert_eq!(out.len(), 1);
    assert_eq!(out[0].pos, Vec2 { x: 3_535, y: -296_465 });
    assert_eq!(out[0].velocity.0, Vec2 { x: 212_100, y: 212_100 });
    assert!(events.is_empty());
    assert!(scored.is_empty());
}

#[test]
fn dead_centre_paddle_hit_sends_ball_straight_back() {
    let b = ball(0, 0, -437_000, 0, -300_000);
    let r = resolve_ball(&b, &vec![], &vec![paddle(0, 0, -450_000)], &vec![]);
    match r {
        Some(Outcome::Bounced(nb)) => {
            assert_eq!(nb.velocity.0, Vec2 { x: 0, y: 300_000 });
            assert_eq!(nb.pos, Vec2 { x: 0, y: -435_000 });
        },
        _ => panic!("expected a bounce"),
    }
}

#[test]
fn paddle_edge_sends_ball_at_sixty_degrees() {
    let right = ball(1, 50_000, 437_000, 0, 300_000);
    match resolve_ball(&right, &vec![], &vec![paddle(1, 0, 450_000)], &vec![]) {
        Some(Outcome::Bounced(nb)) => assert_eq!(nb.velocity.0, Vec2 { x: 259_807, y: -150_000 }),
        _ => panic!("expected a bounce"),
    }
    let left = ball(0, -50_000, -437_000, 0, -300_000);
    match resolve_ball(&left, &vec![], &vec![paddle(0, 0, -450_000)], &vec![]) {
        Some(Outcome::Bounced(nb)) => assert_eq!(nb.velocity.0, Vec2 { x: -259_807, y: 150_000 }),
        _ => panic!("expected a bounce"),
    }
}

#[test]
fn paddle_angle_is_capped_beyond_the_edge() {
    let b = ball(0, 58_000, -440_000, 0, -300_000);
    match resolve_ball(&b, &vec![], &vec![paddle(0, 0, -450_000)], &vec![]) {
        Some(Outcome::Bounced(nb)) => assert_eq!(nb.velocity.0, Vec2 { x: 259_807, y: 150_000 }),
        _ => panic!("expected a bounce"),
    }
}

#[test]
fn side_wall_mirrors_velocity_and_keeps_speed() {
    let b = ball(0, 245_000, 0, 100_000, 50_000);
    let walls = vec![wall(None, 750_000, 0, 500_000, 1_000_000)];
    match resolve_ball(&b, &walls, &vec![], &vec![]) {
        Some(Outcome::Bounced(nb)) => {
            assert_eq!(nb.velocity.0, Vec2 { x: -100_000, y: 50_000 });
            assert_eq!(nb.pos, Vec2 { x: 240_000, y: 0 });
        },
        _ => panic!("expected a bounce"),
    }
}

#[test]
fn opposing_team_boundary_scores_the_ball() {
    let walls = vec![wall(Some(0), 0, -1_000_000, 250_000, 500_000)];
    let other = ball(1, 0, -495_000, 0, -300_000);
    assert_eq!(resolve_ball(&other, &walls, &vec![], &vec![]), Some(Outcome::Scored));
    let own = ball(0, 0, -495_000, 0, -300_000);
    match resolve_ball(&own, &walls, &vec![], &vec![]) {
        Some(Outcome::Bounced(nb)) => assert_eq!(nb.velocity.0, Vec2 { x: 0, y: 300_000 }),
        _ => panic!("expected a bounce"),
    }
    let (out, _, scored) = check_collision(&vec![other, own], &walls, &vec![], &vec![]);
    assert_eq!(out.len(), 1);
    assert_eq!(scored, vec![Team(1)]);
}

#[test]
fn ball_centre_inside_a_wall_is_destroyed() {
    let walls = vec![wall(None, 750_000, 0, 500_000, 1_000_000)];
    let b = ball(1, 300_000, 0, 100_000, 0);
    assert_eq!(resolve_ball(&b, &walls, &vec![], &vec![]), Some(Outcome::Destroyed));
}

#[test]
fn ball_bounces_off_other_team_cell_and_reports_it() {
    let cells = vec![
        CellEntity { cell: Cell { half_size: Vec2 { x: 25_000, y: 25_000 } }, team: Team(0), pos: Vec2 { x: 25_000, y: 25_000 } },
        CellEntity { cell: Cell { half_size: Vec2 { x: 25_000, y: 25_000 } }, team: Team(1), pos: Vec2 { x: 25_000, y: 75_000 } },
    ];
    let balls = vec![ball(0, 25_000, 42_000, 0, 300_000)];
    let (out, events, _) = check_collision(&balls, &vec![], &vec![], &cells);
    assert_eq!(out.len(), 1);
    assert_eq!(out[0].velocity.0, Vec2 { x: 0, y: -300_000 });
    assert_eq!(out[0].pos, Vec2 { x: 25_000, y: 40_000 });
    assert_eq!(events.len(), 1);
    assert_eq!(events[0].cell, 1);
    assert_eq!(events[0].team, Team(0));
}

#[test]
fn ball_touching_nothing_is_unchanged() {
    let b = ball(0, 0, 0, 1_000, 1_000);
    assert_eq!(resolve_ball(&b, &vec![], &vec![paddle(0, 0, -450_000)], &vec![]), None);
}

#[test]
fn integer_square_root_and_tables() {
    assert_eq!(isqrt(0), 0);
    assert_eq!(isqrt(90_000_000_000), 300_000);
    assert_eq!(isqrt(99), 9);
    assert_eq!(sine(0), 0);
    assert_eq!(sine(300), 500_000_000);
    assert_eq!(sine(600), 866_025_403);
    assert_eq!(sine(900), 1_000_000_000);
    assert_eq!(cosine(0), 1_000_000_000);
    assert_eq!(cosine(600), 500_000_000);
}

#[test]
fn corner_contact_reflects_about_the_diagonal_normal() {
    let walls = vec![wall(None, 0, 0, 100, 100)];
    let mut b = ball(0, 103, 104, 25, 0);
    b.ball = Ball { radius: 10 };
    match resolve_ball(&b, &walls, &vec![], &vec![]) {
        Some(Outcome::Bounced(nb)) => {
            assert_eq!(nb.velocity.0, Vec2 { x: 7, y: -24 });
            assert_eq!(nb.pos, Vec2 { x: 106, y: 108 });
        },
        _ => panic!("expected a bounce"),
    }
}

#[test]
fn corner_contact_keeps_speed_up_to_rounding() {
    let walls = vec![wall(None, 0, 0, 100_000, 100_000)];
    let b = ball(0, 103_000, 104_000, 300_000, -40_000);
    match resolve_ball(&b, &walls, &vec![], &vec![]) {
        Some(Outcome::Bounced(nb)) => {
            assert_eq!(nb.velocity.0, Vec2 { x: 122_400, y: -276_800 });
            assert_eq!(nb.pos, Vec2 { x: 106_000, y: 108_000 });
        },
        _ => panic!("expected a bounce"),
    }
}

#[test]
fn paddle_corner_contact_pushes_out_to_the_radius() {
    let outside = ball(0, 56_000, -437_000, 0, -300_000);
    assert_eq!(resolve_ball(&outside, &vec![], &vec![paddle(0, 0, -450_000)], &vec![]), None);
    let c = ball(0, 53_000, -441_000, 0, -300_000);
    match resolve_ball(&c, &vec![], &vec![paddle(0, 0, -450_000)], &vec![]) {
        Some(Outcome::Bounced(nb)) => {
            assert_eq!(nb.pos, Vec2 { x: 56_000, y: -437_000 });
            assert_eq!(nb.velocity.0, Vec2 { x: 259_807, y: 150_000 });
        },
        _ => panic!("expected a bounce"),
    }
}

#[test]
fn paddle_angle_steps_in_tenths_of_a_degree() {
    // 12.5 units right of centre on a 50-unit half-width: 15.0 degrees.
    let b = ball(0, 12_500, -437_000, 0, -300_000);
    match resolve_ball(&b, &vec![], &vec![paddle(0, 0, -450_000)], &vec![]) {
        Some(Outcome::Bounced(nb)) => assert_eq!(nb.velocity.0, Vec2 { x: 77_645, y: 289_777 }),
        _ => panic!("expected a bounce"),
    }
    // 12.584 units: 15.1 degrees, no longer the same as 15.
    let c = ball(0, 12_584, -437_000, 0, -300_000);
    match resolve_ball(&c, &vec![], &vec![paddle(0, 0, -450_000)], &vec![]) {
        Some(Outcome::Bounced(nb)) => assert_ne!(nb.velocity.0, Vec2 { x: 77_645, y: 289_777 }),
        _ => panic!("expected a bounce"),
    }
}
