//! The starting layout of a match: two halves of cells, the four walls, a
//! paddle and a ball for each team.
use vstd::prelude::*;
use crate::collision::{balls_wf, cells_wf, walls_wf};
use crate::components::{
    Ball, BallEntity, Cell, CellEntity, Count, Paddle, PaddleEntity, PaddleSpeed, Team, Velocity, Wall,
    WallEntity, BALL_RADIUS, CELL_SIZE, FIELD_HEIGHT, FIELD_WIDTH, GAME_DURATION_TICKS, PADDLE_HEIGHT,
    PADDLE_SPEED, PADDLE_WIDTH, PADDLE_Y_POSITION,
};
use crate::geometry::{Vec2, COORD_LIMIT};
use crate::physics::paddles_ok;
use crate::timer::GameTimer;
use crate::world::{World, WorldView};

verus! {

/// The number of cells in the field: a grid for each team.
pub const CELL_COUNT: usize = 200;
/// Thickness of the walls around the field.
pub const WALL_THICKNESS: i64 = 1_000_000;
/// Each component of a ball's first velocity: 300 units per second at 45°.
pub const FIRST_DIAGONAL: i64 = 212_132;

/// Cell `k`: team `k / 100`; column `k % 100 / 10` from the left; row `k % 10`
/// counted from the centre line outward into the team's half (team 0 below,
/// team 1 above).
pub open spec fn cell_at(k: int) -> CellEntity {
    let t = k / 100;
    let col = (k % 100) / 10 - FIELD_WIDTH / 2;
    let row = k % 10;
    CellEntity {
        cell: Cell { half_size: Vec2 { x: 25_000, y: 25_000 } },
        team: Team(t as usize),
        pos: Vec2 {
            x: (col * CELL_SIZE + CELL_SIZE / 2) as i64,
            y: ((2 * t - 1) * (row * CELL_SIZE + CELL_SIZE / 2)) as i64,
        },
    }
}

/// The cells of a new match.
pub fn setup_cells() -> (r: Vec<CellEntity>)
    ensures
        r@.len() == CELL_COUNT,
        forall|k: int| 0 <= k < CELL_COUNT ==> #[trigger] r@[k] == cell_at(k),
        cells_wf(r@),
{
    let mut cells: Vec<CellEntity> = Vec::new();
    let mut k: usize = 0;
    while k < CELL_COUNT
        invariant
            0 <= k <= CELL_COUNT,
            cells@.len() == k,
            forall|j: int| 0 <= j < k ==> #[trigger] cells@[j] == cell_at(j),
            cells_wf(cells@),
        decreases CELL_COUNT - k,
    {
        let t = k / 100;
        let col = ((k % 100) / 10) as i64 - FIELD_WIDTH / 2;
        let row = (k % 10) as i64;
        let sign: i64 = if t == 0 { -1 } else { 1 };
        let c = CellEntity {
            cell: Cell { half_size: Vec2 { x: CELL_SIZE / 2, y: CELL_SIZE / 2 } },
            team: Team(t),
            pos: Vec2 { x: col * CELL_SIZE + CELL_SIZE / 2, y: sign * (row * CELL_SIZE + CELL_SIZE / 2) },
        };
        assert(c == cell_at(k as int));
        cells.push(c);
        k = k + 1;
    }
    cells
}

/// The walls of a new match: the boundary behind team 1 (top) and behind
/// team 0 (bottom), then the two side walls, which belong to no team.
pub open spec fn walls_spec() -> Seq<WallEntity> {
    let end_half = Vec2 { x: 250_000, y: 500_000 };
    let side_half = Vec2 { x: 500_000, y: 1_000_000 };
    seq![
        WallEntity { wall: Wall { half_size: end_half }, team: Some(Team(1)), pos: Vec2 { x: 0, y: 1_000_000 } },
        WallEntity { wall: Wall { half_size: end_half }, team: Some(Team(0)), pos: Vec2 { x: 0, y: -1_000_000i64 } },
        WallEntity { wall: Wall { half_size: side_half }, team: None, pos: Vec2 { x: -750_000i64, y: 0 } },
        WallEntity { wall: Wall { half_size: side_half }, team: None, pos: Vec2 { x: 750_000, y: 0 } },
    ]
}

pub fn setup_walls() -> (r: Vec<WallEntity>)
    ensures
        r@ == walls_spec(),
        walls_wf(r@),
{
    let w = FIELD_WIDTH * CELL_SIZE;
    let h = FIELD_HEIGHT * CELL_SIZE * 2;
    let end_half = Vec2 { x: w / 2, y: WALL_THICKNESS / 2 };
    let side_half = Vec2 { x: WALL_THICKNESS / 2, y: (h + WALL_THICKNESS) / 2 };
    let mut walls: Vec<WallEntity> = Vec::new();
    walls.push(WallEntity { wall: Wall { half_size: end_half }, team: Some(Team(1)), pos: Vec2 { x: 0, y: (h + WALL_THICKNESS) / 2 } });
    walls.push(WallEntity { wall: Wall { half_size: end_half }, team: Some(Team(0)), pos: Vec2 { x: 0, y: -((h + WALL_THICKNESS) / 2) } });
    walls.push(WallEntity { wall: Wall { half_size: side_half }, team: None, pos: Vec2 { x: -((w + WALL_THICKNESS) / 2), y: 0 } });
    walls.push(WallEntity { wall: Wall { half_size: side_half }, team: None, pos: Vec2 { x: (w + WALL_THICKNESS) / 2, y: 0 } });
    assert(walls@ =~= walls_spec());
    walls
}

/// Team 0's paddle below the field's centre, team 1's above.
pub open spec fn paddles_spec() -> Seq<PaddleEntity> {
    let half = Vec2 { x: 50_000, y: 5_000 };
    seq![
        PaddleEntity { paddle: Paddle { half_size: half }, team: Team(0), pos: Vec2 { x: 0, y: -450_000i64 } },
        PaddleEntity { paddle: Paddle { half_size: half }, team: Team(1), pos: Vec2 { x: 0, y: 450_000 } },
    ]
}

pub fn setup_paddle() -> (r: Vec<PaddleEntity>)
    ensures
        r@ == paddles_spec(),
        paddles_ok(r@),
{
    let half = Vec2 { x: PADDLE_WIDTH / 2, y: PADDLE_HEIGHT / 2 };
    let mut paddles: Vec<PaddleEntity> = Vec::new();
    paddles.push(PaddleEntity { paddle: Paddle { half_size: half }, team: Team(0), pos: Vec2 { x: 0, y: -PADDLE_Y_POSITION } });
    paddles.push(PaddleEntity { paddle: Paddle { half_size: half }, team: Team(1), pos: Vec2 { x: 0, y: PADDLE_Y_POSITION } });
    assert(paddles@ =~= paddles_spec());
    paddles
}

/// Team 0's ball 300 units below the centre, team 1's 300 above, moving at 300
/// units per second along opposite diagonals.
pub open spec fn balls_spec() -> Seq<BallEntity> {
    seq![
        BallEntity {
            ball: Ball { radius: BALL_RADIUS },
            team: Team(0),
            pos: Vec2 { x: 0, y: -300_000i64 },
            velocity: Velocity(Vec2 { x: 212_132, y: 212_132 }),
            respawning: None,
        },
        BallEntity {
            ball: Ball { radius: BALL_RADIUS },
            team: Team(1),
            pos: Vec2 { x: 0, y: 300_000 },
            velocity: Velocity(Vec2 { x: -212_132i64, y: -212_132i64 }),
            respawning: None,
        },
    ]
}

pub fn setup_ball() -> (r: Vec<BallEntity>)
    ensures
        r@ == balls_spec(),
        balls_wf(r@, COORD_LIMIT as int),
{
    let mut balls: Vec<BallEntity> = Vec::new();
    balls.push(BallEntity {
        ball: Ball { radius: BALL_RADIUS },
        team: Team(0),
        pos: Vec2 { x: 0, y: -300_000 },
        velocity: Velocity(Vec2 { x: FIRST_DIAGONAL, y: FIRST_DIAGONAL }),
        respawning: None,
    });
    balls.push(BallEntity {
        ball: Ball { radius: BALL_RADIUS },
        team: Team(1),
        pos: Vec2 { x: 0, y: 300_000 },
        velocity: Velocity(Vec2 { x: -FIRST_DIAGONAL, y: -FIRST_DIAGONAL }),
        respawning: None,
    });
    assert(balls@ =~= balls_spec());
    balls
}

/// The state a match starts in: the starting layout, counters at zero, the
/// full timer and no result.
pub open spec fn is_new_match(w: WorldView) -> bool {
    &&& w.wf()
    &&& w.balls == balls_spec()
    &&& w.paddles == paddles_spec()
    &&& w.walls == walls_spec()
    &&& w.cells.len() == CELL_COUNT
    &&& forall|k: int| 0 <= k < CELL_COUNT ==> #[trigger] w.cells[k] == cell_at(k)
    &&& w.items.len() == 0
    &&& w.capture_count == 0
    &&& w.items_spawned == 0
    &&& w.paddle_speed == PaddleSpeed(PADDLE_SPEED)
    &&& w.timer == (GameTimer { remaining_ticks: GAME_DURATION_TICKS })
    &&& w.result.is_none()
}

impl World {
    /// A new match.
    pub fn new_match() -> (r: World)
        ensures
            is_new_match(r@),
    {
        World {
            balls: setup_ball(),
            paddles: setup_paddle(),
            cells: setup_cells(),
            walls: setup_walls(),
            items: Vec::new(),
            capture_count: Count(0),
            items_spawned: Count(0),
            paddle_speed: PaddleSpeed(PADDLE_SPEED),
            timer: GameTimer { remaining_ticks: GAME_DURATION_TICKS },
            result: None,
        }
    }
}

} // verus!
