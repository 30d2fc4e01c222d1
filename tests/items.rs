use rollback_breakout::components::{
    Ball, BallEntity, Cell, CellClicked, CellEntity, Count, ItemCollected, ItemEntity, ItemType,
    Paddle, PaddleEntity, Team, Velocity, BALL_RADIUS, MAX_BALL_SPEED, MAX_PADDLE_HALF_WIDTH,
};
use rollback_breakout::field::toggle_cell;
use rollback_breakout::geometry::Vec2;
use rollback_breakout::item::{apply_item_effect, check_paddle_collision, spawn_item};

fn ball(team: usize, vx: i64, vy: i64) -> BallEntity {
    BallEntity {
        ball: Ball { radius: BALL_RADIUS },
        team: Team(team),
        pos: Vec2 { x: 1_000, y: 2_000 },
        velocity: Velocity(Vec2 { x: vx, y: vy }),
        respawning: None,
    }
}

fn paddles() -> Vec<PaddleEntity> {
    vec![
        PaddleEntity { paddle: Paddle { half_size: Vec2 { x: 50_000, y: 5_000 } }, team: Team(0), pos: Vec2 { x: 0, y: -450_000 } },
        PaddleEntity { paddle: Paddle { half_size: Vec2 { x: 50_000, y: 5_000 } }, team: Team(1), pos: Vec2 { x: 0, y: 450_000 } },
    ]
}

fn collected(team: usize, kind: ItemType) -> Vec<ItemCollected> {
    vec![ItemCollected { team: Team(team), item_type: kind }]
}

#[test]
fn speed_up_multiplies_by_six_fifths() {
    let mut balls = vec![ball(0, 100_000, -50_000), ball(1, 100_000, 0)];
    let mut ps = paddles();
    apply_item_effect(&collected(0, ItemType::SpeedUp), &mut balls, &mut ps);
    assert_eq!(balls[0].velocity.0, Vec2 { x: 120_000, y: -60_000 });
    assert_eq!(balls[1].velocity.0, Vec2 { x: 100_000, y: 0 });
}

#[test]
fn repeated_speed_up_never_exceeds_the_maximum() {
    let mut balls = vec![ball(0, MAX_BALL_SPEED / 2, MAX_BALL_SPEED / 2)];
    let mut ps = paddles();
    for _ in 0..10 {
        apply_item_effect(&collected(0, ItemType::SpeedUp), &mut balls, &mut ps);
        let v = balls[0].velocity.0;
        let sq = (v.x as i128) * (v.x as i128) + (v.y as i128) * (v.y as i128);
        assert!(sq <= (MAX_BALL_SPEED as i128) * (MAX_BALL_SPEED as i128));
    }
    let mut axis = vec![ball(0, MAX_BALL_SPEED, 0)];
    apply_item_effect(&collected(0, ItemType::SpeedUp), &mut axis, &mut ps);
    assert_eq!(axis[0].velocity.0, Vec2 { x: MAX_BALL_SPEED, y: 0 });
}

#[test]
fn enlarge_paddle_grows_to_the_cap_and_stops() {
    let mut balls = vec![];
    let mut ps = paddles();
    let ev = collected(1, ItemType::EnlargePaddle);
    apply_item_effect(&ev, &mut balls, &mut ps);
    assert_eq!(ps[1].paddle.half_size.x, 75_000);
    apply_item_effect(&ev, &mut balls, &mut ps);
    assert_eq!(ps[1].paddle.half_size.x, 112_500);
    apply_item_effect(&ev, &mut balls, &mut ps);
    assert_eq!(ps[1].paddle.half_size.x, MAX_PADDLE_HALF_WIDTH);
    apply_item_effect(&ev, &mut balls, &mut ps);
    assert_eq!(ps[1].paddle.half_size.x, MAX_PADDLE_HALF_WIDTH);
    assert_eq!(ps[0].paddle.half_size.x, 50_000);
}

#[test]
fn multi_ball_adds_two_turned_copies_per_team_ball() {
    let mut balls = vec![ball(0, 0, 300_000), ball(1, 0, -300_000)];
    let mut ps = paddles();
    apply_item_effect(&collected(0, ItemType::MultiBall), &mut balls, &mut ps);
    assert_eq!(balls.len(), 4);
    assert_eq!(balls[2].velocity.0, Vec2 { x: 77_645, y: 289_777 });
    assert_eq!(balls[3].velocity.0, Vec2 { x: -77_645, y: 289_777 });
    assert_eq!(balls[2].pos, balls[0].pos);
    assert_eq!(balls[2].team, Team(0));
}

#[test]
fn multi_ball_at_capacity_changes_nothing() {
    let mut balls: Vec<BallEntity> = (0..20).map(|_| ball(0, 0, 300_000)).collect();
    let before = balls.clone();
    let mut ps = paddles();
    apply_item_effect(&collected(0, ItemType::MultiBall), &mut balls, &mut ps);
    assert_eq!(balls.len(), 20);
    assert_eq!(balls, before);
}

fn cell(team: usize, x: i64) -> CellEntity {
    CellEntity { cell: Cell { half_size: Vec2 { x: 25_000, y: 25_000 } }, team: Team(team), pos: Vec2 { x, y: 75_000 } }
}

#[test]
fn items_spawn_at_item_cells_cycling_kinds() {
    let cells = vec![cell(2, 25_000), cell(1, 75_000), cell(2, 125_000)];
    let events = vec![
        CellClicked { cell: 0, team: Team(0) },
        CellClicked { cell: 1, team: Team(0) },
        CellClicked { cell: 2, team: Team(1) },
        CellClicked { cell: 0, team: Team(1) },
        CellClicked { cell: 2, team: Team(0) },
    ];
    let mut items: Vec<ItemEntity> = vec![];
    let mut count = Count(0);
    spawn_item(&events, &cells, &mut items, &mut count);
    let kinds: Vec<ItemType> = items.iter().map(|i| i.item.item_type).collect();
    assert_eq!(kinds, vec![ItemType::EnlargePaddle, ItemType::SpeedUp, ItemType::MultiBall, ItemType::EnlargePaddle]);
    assert_eq!(items[0].pos, Vec2 { x: 25_000, y: 75_000 });
    assert_eq!(items[1].team, Team(1));
    assert_eq!(count, Count(4));
}

#[test]
fn item_counter_counts_every_spawn() {
    let cells = vec![cell(2, 25_000)];
    let events: Vec<CellClicked> = (0..5).map(|t| CellClicked { cell: 0, team: Team(t % 2) }).collect();
    let mut items: Vec<ItemEntity> = vec![];
    let mut count = Count(0);
    spawn_item(&events, &cells, &mut items, &mut count);
    let kinds: Vec<ItemType> = items.iter().map(|i| i.item.item_type).collect();
    assert_eq!(
        kinds,
        vec![ItemType::EnlargePaddle, ItemType::SpeedUp, ItemType::MultiBall, ItemType::EnlargePaddle, ItemType::SpeedUp]
    );
    assert_eq!(count, Count(5));
    let mut more: Vec<ItemEntity> = vec![];
    let mut at_two = Count(2);
    spawn_item(&vec![CellClicked { cell: 0, team: Team(0) }], &cells, &mut more, &mut at_two);
    assert_eq!(more[0].item.item_type, ItemType::MultiBall);
    assert_eq!(at_two, Count(3));
}

#[test]
fn every_tenth_capture_makes_an_item_cell() {
    let mut cells = vec![cell(1, 25_000), cell(1, 75_000)];
    let mut count = Count(0);
    let events: Vec<CellClicked> = (0..10).map(|_| CellClicked { cell: 0, team: Team(0) }).collect();
    toggle_cell(&mut cells, &events, &mut count);
    assert_eq!(cells[0].team, Team(0));
    assert_eq!(count, Count(10));
    toggle_cell(&mut cells, &vec![CellClicked { cell: 1, team: Team(0) }], &mut count);
    assert_eq!(cells[1].team, Team(2));
    assert_eq!(count, Count(1));
}

#[test]
fn item_is_collected_by_its_team_paddle_only() {
    let mut items = vec![
        ItemEntity { item: rollback_breakout::components::Item { item_type: ItemType::SpeedUp }, team: Team(0), pos: Vec2 { x: 0, y: -440_000 } },
        ItemEntity { item: rollback_breakout::components::Item { item_type: ItemType::MultiBall }, team: Team(1), pos: Vec2 { x: 0, y: -440_000 } },
    ];
    let got = check_paddle_collision(&mut items, &paddles());
    assert_eq!(got, vec![ItemCollected { team: Team(0), item_type: ItemType::SpeedUp }]);
    assert_eq!(items.len(), 1);
    assert_eq!(items[0].team, Team(1));
}
