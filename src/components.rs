//! The records that make up the simulation's entities, and the game's
//! constants. Lengths are in sub-units (`SCALE` per world unit), speeds in
//! sub-units per second.
use vstd::prelude::*;
use crate::geometry::{Aabb, Vec2, COORD_LIMIT};

verus! {

pub const TICKS_PER_SECOND: i64 = 60;
pub const BALL_RADIUS: i64 = 10_000;
pub const FIRST_BALL_SPEED: i64 = 300_000;
pub const MAX_BALL_SPEED: i64 = 60_000_000_000;
pub const MAX_BALL_COUNT: usize = 20;
pub const CELL_SIZE: i64 = 50_000;
pub const FIELD_WIDTH: i64 = 10;
pub const FIELD_HEIGHT: i64 = 10;
pub const PADDLE_WIDTH: i64 = 100_000;
pub const PADDLE_HEIGHT: i64 = 10_000;
pub const PADDLE_Y_POSITION: i64 = 450_000;
pub const PADDLE_SPEED: i64 = 300_000;
/// The widest a paddle's half-width may grow: a third of the field's width
/// (the field is `FIELD_WIDTH * CELL_SIZE` wide).
pub const MAX_PADDLE_HALF_WIDTH: i64 = 166_666;
pub const ITEM_FALL_SPEED: i64 = 150_000;
pub const ITEM_SIZE: i64 = 20_000;
/// Any entity farther than this from the centre on either axis is removed.
pub const OUT_OF_BOUNDS: i64 = 1_200_000;
pub const GAME_DURATION_TICKS: u32 = 7200;
pub const RESPAWN_TICKS: u32 = 180;
/// A ball whose squared speed is below this is considered stopped.
pub const STOPPED_SPEED_SQ: i128 = 10_000;
/// Every this many captures, the captured cell becomes item-eligible instead.
pub const CAPTURES_PER_ITEM_CELL: usize = 10;
/// The largest ball radius the simulation accepts.
pub const RADIUS_LIMIT: i64 = 0x10_0000;

/// A team: 0 and 1 are the two players, `ITEM_TEAM` marks an item-eligible
/// cell.
#[derive(Clone, Copy, Debug, PartialEq, Eq, Structural)]
pub struct Team(pub usize);

pub const ITEM_TEAM: usize = 2;

impl Team {
    /// The neutral owner of an item-eligible cell.
    pub fn item() -> (r: Team)
        ensures
            r.0 == ITEM_TEAM,
    {
        Team(ITEM_TEAM)
    }

    /// The hue, in degrees, in which the team's cells are drawn.
    pub fn hue(&self) -> (r: u32)
        ensures
            self.0 == 0 ==> r == 0,
            self.0 == 1 ==> r == 180,
            self.0 >= 2 ==> r == 60,
    {
        match self.0 {
            0 => 0,
            1 => 180,
            _ => 60,
        }
    }
}

/// A counter of events.
#[derive(Clone, Copy, Debug, PartialEq, Eq, Structural)]
pub struct Count(pub usize);

#[derive(Clone, Copy, Debug, PartialEq, Eq, Structural)]
pub struct Ball {
    pub radius: i64,
}

#[derive(Clone, Copy, Debug, PartialEq, Eq, Structural)]
pub struct Velocity(pub Vec2);

/// A ball waiting to be served again: the ticks until it is.
#[derive(Clone, Copy, Debug, PartialEq, Eq, Structural)]
pub struct RespawningBall(pub u32);

#[derive(Clone, Copy, Debug, PartialEq, Eq, Structural)]
pub struct Wall {
    pub half_size: Vec2,
}

#[derive(Clone, Copy, Debug, PartialEq, Eq, Structural)]
pub struct Cell {
    pub half_size: Vec2,
}

#[derive(Clone, Copy, Debug, PartialEq, Eq, Structural)]
pub struct Paddle {
    pub half_size: Vec2,
}

#[derive(Clone, Copy, Debug, PartialEq, Eq, Structural)]
pub enum ItemType {
    EnlargePaddle,
    SpeedUp,
    MultiBall,
}

#[derive(Clone, Copy, Debug, PartialEq, Eq, Structural)]
pub struct Item {
    pub item_type: ItemType,
}

/// A ball of `team` bounced off the cell at index `cell`.
#[derive(Clone, Copy, Debug, PartialEq, Eq, Structural)]
pub struct CellClicked {
    pub cell: usize,
    pub team: Team,
}

/// An item of `item_type` reached the paddle of `team`.
#[derive(Clone, Copy, Debug, PartialEq, Eq, Structural)]
pub struct ItemCollected {
    pub team: Team,
    pub item_type: ItemType,
}

/// Paddle speed in sub-units per second.
#[derive(Clone, Copy, Debug, PartialEq, Eq, Structural)]
pub struct PaddleSpeed(pub i64);

#[derive(Clone, Copy, Debug, PartialEq, Eq, Structural)]
pub struct BallEntity {
    pub ball: Ball,
    pub team: Team,
    pub pos: Vec2,
    pub velocity: Velocity,
    pub respawning: Option<RespawningBall>,
}

#[derive(Clone, Copy, Debug, PartialEq, Eq, Structural)]
pub struct PaddleEntity {
    pub paddle: Paddle,
    pub team: Team,
    pub pos: Vec2,
}

#[derive(Clone, Copy, Debug, PartialEq, Eq, Structural)]
pub struct CellEntity {
    pub cell: Cell,
    pub team: Team,
    pub pos: Vec2,
}

#[derive(Clone, Copy, Debug, PartialEq, Eq, Structural)]
pub struct WallEntity {
    pub wall: Wall,
    pub team: Option<Team>,
    pub pos: Vec2,
}

#[derive(Clone, Copy, Debug, PartialEq, Eq, Structural)]
pub struct ItemEntity {
    pub item: Item,
    pub team: Team,
    pub pos: Vec2,
}

/// A velocity no faster than the maximum speed.
pub open spec fn velocity_ok(v: Vec2) -> bool {
    &&& v.within(MAX_BALL_SPEED as int)
    &&& v.len_sq() <= MAX_BALL_SPEED * MAX_BALL_SPEED
}

impl BallEntity {
    /// A ball of a player team, within `bound` of the centre, no faster than
    /// the maximum speed.
    pub open spec fn wf(self, bound: int) -> bool {
        &&& 0 <= self.ball.radius <= RADIUS_LIMIT
        &&& self.team.0 < 2
        &&& self.pos.within(bound)
        &&& velocity_ok(self.velocity.0)
    }
}

impl PaddleEntity {
    pub open spec fn aabb(self) -> Aabb {
        Aabb { center: self.pos, half: self.paddle.half_size }
    }

    pub open spec fn wf(self) -> bool {
        &&& self.aabb().wf()
        &&& self.paddle.half_size.x >= 1
        &&& self.paddle.half_size.x <= COORD_LIMIT / 4
        &&& self.team.0 < 2
    }
}

impl CellEntity {
    pub open spec fn aabb(self) -> Aabb {
        Aabb { center: self.pos, half: self.cell.half_size }
    }
}

impl WallEntity {
    pub open spec fn aabb(self) -> Aabb {
        Aabb { center: self.pos, half: self.wall.half_size }
    }
}

impl ItemEntity {
    pub open spec fn aabb(self) -> Aabb {
        Aabb { center: self.pos, half: Vec2 { x: ITEM_SIZE, y: ITEM_SIZE } }
    }
}

} // verus!
