//! Movement: balls and items integrate their velocity over one tick, paddles
//! follow their team's input and stop at the walls, and whatever leaves the
//! playfield is removed.
use vstd::prelude::*;
use crate::collision::{balls_wf, walls_wf};
use crate::components::{
    BallEntity, ItemEntity, PaddleEntity, PaddleSpeed, WallEntity, ITEM_FALL_SPEED,
    MAX_BALL_SPEED, OUT_OF_BOUNDS, TICKS_PER_SECOND,
};
use crate::geometry::{abs, clamp, sign, Vec2, COORD_LIMIT};
use crate::input::{direction_spec, input_direction};

verus! {

/// The distance covered in one tick at `v` sub-units per second, rounded
/// toward zero.
pub open spec fn per_tick(v: int) -> int {
    sign(v) * (abs(v) / (TICKS_PER_SECOND as int))
}

pub fn per_tick_exec(v: i64) -> (r: i64)
    requires
        abs(v as int) <= MAX_BALL_SPEED,
    ensures
        r == per_tick(v as int),
        abs(r as int) <= abs(v as int) / 60,
{
    if v < 0 {
        -((-v) / TICKS_PER_SECOND)
    } else {
        v / TICKS_PER_SECOND
    }
}

pub open spec fn moved_ball(b: BallEntity) -> BallEntity {
    BallEntity {
        pos: Vec2 {
            x: (b.pos.x + per_tick(b.velocity.0.x as int)) as i64,
            y: (b.pos.y + per_tick(b.velocity.0.y as int)) as i64,
        },
        ..b
    }
}

/// Moves every ball by its velocity over one tick.
pub fn apply_velocity(balls: &mut Vec<BallEntity>)
    requires
        balls_wf(old(balls)@, COORD_LIMIT as int),
    ensures
        final(balls)@ == old(balls)@.map_values(|b: BallEntity| moved_ball(b)),
        balls_wf(final(balls)@, 2 * COORD_LIMIT),
{
    let ghost start = balls@;
    let mut i: usize = 0;
    while i < balls.len()
        invariant
            0 <= i <= balls.len(),
            balls@.len() == start.len(),
            balls_wf(start, COORD_LIMIT as int),
            forall|j: int| 0 <= j < i ==> #[trigger] balls@[j] == moved_ball(start[j]),
            forall|j: int| i <= j < balls@.len() ==> #[trigger] balls@[j] == start[j],
            forall|j: int| 0 <= j < i ==> (#[trigger] balls@[j]).wf(2 * COORD_LIMIT),
        decreases balls.len() - i,
    {
        let b = balls[i];
        assert(start[i as int].wf(COORD_LIMIT as int));
        let dx = per_tick_exec(b.velocity.0.x);
        let dy = per_tick_exec(b.velocity.0.y);
        let nb = BallEntity { pos: Vec2 { x: b.pos.x + dx, y: b.pos.y + dy }, ..b };
        balls.set(i, nb);
        i = i + 1;
    }
    assert(balls@ =~= start.map_values(|b: BallEntity| moved_ball(b)));
}

/// The item's team decides its direction: team 0's items fall, team 1's rise.
pub open spec fn moved_item(it: ItemEntity) -> ItemEntity {
    let step = ITEM_FALL_SPEED / TICKS_PER_SECOND;
    ItemEntity {
        pos: Vec2 {
            x: it.pos.x,
            y: (if it.team.0 == 0 { it.pos.y - step } else { it.pos.y + step }) as i64,
        },
        ..it
    }
}

pub open spec fn items_within(items: Seq<ItemEntity>, bound: int) -> bool {
    forall|i: int| 0 <= i < items.len() ==> (#[trigger] items[i]).pos.within(bound)
}

/// Moves every item toward its team's paddle.
pub fn move_items(items: &mut Vec<ItemEntity>)
    requires
        items_within(old(items)@, COORD_LIMIT as int),
    ensures
        final(items)@ == old(items)@.map_values(|it: ItemEntity| moved_item(it)),
        items_within(final(items)@, 2 * COORD_LIMIT),
{
    let ghost start = items@;
    let mut i: usize = 0;
    while i < items.len()
        invariant
            0 <= i <= items.len(),
            items@.len() == start.len(),
            items_within(start, COORD_LIMIT as int),
            forall|j: int| 0 <= j < i ==> #[trigger] items@[j] == moved_item(start[j]),
            forall|j: int| i <= j < items@.len() ==> #[trigger] items@[j] == start[j],
            forall|j: int| 0 <= j < i ==> (#[trigger] items@[j]).pos.within(2 * COORD_LIMIT),
        decreases items.len() - i,
    {
        let it = items[i];
        assert(start[i as int].pos.within(COORD_LIMIT as int));
        let step = ITEM_FALL_SPEED / TICKS_PER_SECOND;
        let y = if it.team.0 == 0 { it.pos.y - step } else { it.pos.y + step };
        items.set(i, ItemEntity { pos: Vec2 { x: it.pos.x, y }, ..it });
        i = i + 1;
    }
    assert(items@ =~= start.map_values(|it: ItemEntity| moved_item(it)));
}

/// The paddle's box, centred at `x`, overlaps the wall (closed intervals).
pub open spec fn paddle_hits_wall(p: PaddleEntity, x: int, w: WallEntity) -> bool {
    let h = p.paddle.half_size;
    let wa = w.aabb();
    &&& x - h.x <= wa.max_x()
    &&& wa.min_x() <= x + h.x
    &&& p.pos.y - h.y <= wa.max_y()
    &&& wa.min_y() <= p.pos.y + h.y
}

/// The candidate position `x` after the walls from index `i` on have pushed
/// the paddle back to their near side, one wall after another.
pub open spec fn snap_to_walls(p: PaddleEntity, x: int, walls: Seq<WallEntity>, i: int) -> int
    decreases walls.len() - i,
{
    if i < 0 || i >= walls.len() {
        x
    } else {
        let w = walls[i];
        let nx = if paddle_hits_wall(p, x, w) {
            if p.pos.x < w.pos.x {
                w.aabb().min_x() - p.paddle.half_size.x
            } else {
                w.aabb().max_x() + p.paddle.half_size.x
            }
        } else {
            x
        };
        snap_to_walls(p, nx, walls, i + 1)
    }
}

/// A paddle after one tick under `input`: it moves at `speed` toward the held
/// direction, is stopped at the walls, and stays within the coordinate range.
pub open spec fn moved_paddle(p: PaddleEntity, input: u8, speed: int, walls: Seq<WallEntity>) -> PaddleEntity {
    let dir = direction_spec(input);
    if dir == 0 {
        p
    } else {
        let x = p.pos.x + per_tick(dir * speed);
        let nx = clamp(snap_to_walls(p, x, walls, 0), -COORD_LIMIT, COORD_LIMIT as int);
        PaddleEntity { pos: Vec2 { x: nx as i64, y: p.pos.y }, ..p }
    }
}

proof fn lemma_snap_no_hit(p: PaddleEntity, x: int, walls: Seq<WallEntity>, i: int)
    requires
        0 <= i,
        forall|j: int| 0 <= j < walls.len() ==> !paddle_hits_wall(p, x, #[trigger] walls[j]),
    ensures
        snap_to_walls(p, x, walls, i) == x,
    decreases walls.len() - i,
{
    if i < walls.len() {
        lemma_snap_no_hit(p, x, walls, i + 1);
    }
}

/// A paddle under the record `encode(left, right)`, away from every wall,
/// moves one tick's distance left for left alone, right for right alone, and
/// stays for both or neither; only its horizontal position changes.
pub proof fn lemma_paddle_follows_input(p: PaddleEntity, left: bool, right: bool, speed: int, walls: Seq<WallEntity>)
    requires
        0 <= speed,
        -COORD_LIMIT <= p.pos.x + per_tick(speed) <= COORD_LIMIT,
        -COORD_LIMIT <= p.pos.x - per_tick(speed) <= COORD_LIMIT,
        forall|j: int| 0 <= j < walls.len() ==> !paddle_hits_wall(p, p.pos.x + per_tick(speed), #[trigger] walls[j]),
        forall|j: int| 0 <= j < walls.len() ==> !paddle_hits_wall(p, p.pos.x - per_tick(speed), #[trigger] walls[j]),
    ensures
        ({
            let q = moved_paddle(p, crate::input::encode_spec(left, right), speed, walls);
            &&& q.pos.y == p.pos.y && q.paddle == p.paddle && q.team == p.team
            &&& (left == right ==> q.pos.x == p.pos.x)
            &&& (right && !left ==> q.pos.x == p.pos.x + per_tick(speed))
            &&& (left && !right ==> q.pos.x == p.pos.x - per_tick(speed))
        }),
{
    crate::input::lemma_direction_of_encoded(left, right);
    assert(per_tick(-speed) == -per_tick(speed));
    assert(per_tick(1 * speed) == per_tick(speed));
    assert(per_tick(-1 * speed) == per_tick(-speed));
    lemma_snap_no_hit(p, p.pos.x + per_tick(speed), walls, 0);
    lemma_snap_no_hit(p, p.pos.x - per_tick(speed), walls, 0);
}

pub open spec fn paddle_speed_ok(s: PaddleSpeed) -> bool {
    0 <= s.0 <= MAX_BALL_SPEED
}

fn move_one_paddle(p: PaddleEntity, input: u8, speed: PaddleSpeed, walls: &Vec<WallEntity>) -> (r: PaddleEntity)
    requires
        p.wf(),
        walls_wf(walls@),
        paddle_speed_ok(speed),
    ensures
        r == moved_paddle(p, input, speed.0 as int, walls@),
        r.wf(),
{
    let dir = input_direction(input);
    if dir == 0 {
        return p;
    }
    let v = if dir < 0 { -speed.0 } else { speed.0 };
    assert(v == dir * speed.0) by (nonlinear_arith)
        requires
            (dir == -1 && v == -speed.0) || (dir == 1 && v == speed.0);
    let step = per_tick_exec(v);
    let mut x = p.pos.x + step;
    let h = p.paddle.half_size;
    let mut i: usize = 0;
    while i < walls.len()
        invariant
            0 <= i <= walls.len(),
            walls_wf(walls@),
            p.wf(),
            h == p.paddle.half_size,
            abs(x as int) <= 3 * COORD_LIMIT,
            snap_to_walls(p, p.pos.x + per_tick(dir * speed.0), walls@, 0) == snap_to_walls(p, x as int, walls@, i as int),
        decreases walls.len() - i,
    {
        let w = walls[i];
        assert(walls@[i as int].aabb().wf());
        let wh = w.wall.half_size;
        if x - h.x <= w.pos.x + wh.x && w.pos.x - wh.x <= x + h.x && p.pos.y - h.y <= w.pos.y
            + wh.y && w.pos.y - wh.y <= p.pos.y + h.y {
            x = if p.pos.x < w.pos.x {
                w.pos.x - wh.x - h.x
            } else {
                w.pos.x + wh.x + h.x
            };
        }
        i = i + 1;
    }
    let nx = if x < -COORD_LIMIT { -COORD_LIMIT } else if x > COORD_LIMIT { COORD_LIMIT } else { x };
    PaddleEntity { pos: Vec2 { x: nx, y: p.pos.y }, ..p }
}

pub open spec fn paddles_ok(paddles: Seq<PaddleEntity>) -> bool {
    forall|i: int| 0 <= i < paddles.len() ==> (#[trigger] paddles[i]).wf()
}

/// Moves each paddle by the input of the player of its team.
pub fn move_paddles(paddles: &mut Vec<PaddleEntity>, inputs: [u8; 2], speed: PaddleSpeed, walls: &Vec<WallEntity>)
    requires
        paddles_ok(old(paddles)@),
        walls_wf(walls@),
        paddle_speed_ok(speed),
    ensures
        final(paddles)@ == old(paddles)@.map_values(
            |p: PaddleEntity| moved_paddle(p, inputs@[p.team.0 as int], speed.0 as int, walls@),
        ),
        paddles_ok(final(paddles)@),
{
    let ghost start = paddles@;
    let mut i: usize = 0;
    while i < paddles.len()
        invariant
            0 <= i <= paddles.len(),
            paddles@.len() == start.len(),
            paddles_ok(start),
            walls_wf(walls@),
            paddle_speed_ok(speed),
            forall|j: int| 0 <= j < i ==> #[trigger] paddles@[j] == moved_paddle(start[j], inputs@[start[j].team.0 as int], speed.0 as int, walls@),
            forall|j: int| i <= j < paddles@.len() ==> #[trigger] paddles@[j] == start[j],
            forall|j: int| 0 <= j < i ==> (#[trigger] paddles@[j]).wf(),
        decreases paddles.len() - i,
    {
        let p = paddles[i];
        assert(start[i as int].wf());
        let np = move_one_paddle(p, inputs[p.team.0], speed, walls);
        paddles.set(i, np);
        i = i + 1;
    }
    assert(paddles@ =~= start.map_values(
        |p: PaddleEntity| moved_paddle(p, inputs@[p.team.0 as int], speed.0 as int, walls@),
    ));
}

pub open spec fn in_bounds(p: Vec2) -> bool {
    p.within(OUT_OF_BOUNDS as int)
}

pub fn in_bounds_exec(p: Vec2) -> (r: bool)
    ensures
        r == in_bounds(p),
{
    -OUT_OF_BOUNDS <= p.x && p.x <= OUT_OF_BOUNDS && -OUT_OF_BOUNDS <= p.y && p.y <= OUT_OF_BOUNDS
}

/// Removes every ball that has left the playfield, keeping the others in order.
pub fn despawn_out_of_bounds_balls(balls: &mut Vec<BallEntity>)
    requires
        balls_wf(old(balls)@, 4 * COORD_LIMIT),
    ensures
        final(balls)@ == old(balls)@.filter(|b: BallEntity| in_bounds(b.pos)),
        final(balls)@.len() <= old(balls)@.len(),
        balls_wf(final(balls)@, OUT_OF_BOUNDS as int),
{
    let ghost start = balls@;
    let mut out: Vec<BallEntity> = Vec::new();
    let mut i: usize = 0;
    while i < balls.len()
        invariant
            0 <= i <= balls.len(),
            balls@ == start,
            balls_wf(start, 4 * COORD_LIMIT),
            balls_wf(out@, OUT_OF_BOUNDS as int),
            out@.len() <= i,
            out@ == start.subrange(0, i as int).filter(|b: BallEntity| in_bounds(b.pos)),
        decreases balls.len() - i,
    {
        let b = balls[i];
        assert(start[i as int].wf(4 * COORD_LIMIT));
        proof {
            reveal(Seq::filter);
            assert(start.subrange(0, i as int + 1).drop_last() =~= start.subrange(0, i as int));
        }
        if in_bounds_exec(b.pos) {
            out.push(b);
        }
        i = i + 1;
    }
    assert(start.subrange(0, start.len() as int) =~= start);
    *balls = out;
}

/// Removes every item that has left the playfield, keeping the others in order.
pub fn despawn_out_of_bounds_items(items: &mut Vec<ItemEntity>)
    ensures
        final(items)@ == old(items)@.filter(|it: ItemEntity| in_bounds(it.pos)),
        items_within(final(items)@, OUT_OF_BOUNDS as int),
{
    let ghost start = items@;
    let mut out: Vec<ItemEntity> = Vec::new();
    let mut i: usize = 0;
    while i < items.len()
        invariant
            0 <= i <= items.len(),
            items@ == start,
            items_within(out@, OUT_OF_BOUNDS as int),
            out@ == start.subrange(0, i as int).filter(|it: ItemEntity| in_bounds(it.pos)),
        decreases items.len() - i,
    {
        let it = items[i];
        proof {
            reveal(Seq::filter);
            assert(start.subrange(0, i as int + 1).drop_last() =~= start.subrange(0, i as int));
        }
        if in_bounds_exec(it.pos) {
            out.push(it);
        }
        i = i + 1;
    }
    assert(start.subrange(0, start.len() as int) =~= start);
    *items = out;
}

} // verus!
