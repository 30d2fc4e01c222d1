//! Power-up items: spawned where a ball hits an item-eligible cell, collected
//! by the paddle of the ball's team, and applied to that team's balls or
//! paddle.
use vstd::prelude::*;
use crate::collision::{balls_wf, events_wf};
use crate::components::{
    BallEntity, CellClicked, CellEntity, Count, Item, ItemCollected, ItemEntity, ItemType,
    PaddleEntity, Velocity, ITEM_SIZE, ITEM_TEAM, MAX_BALL_COUNT, MAX_BALL_SPEED,
    MAX_PADDLE_HALF_WIDTH, velocity_ok,
};
use crate::geometry::{abs, Vec2, COORD_LIMIT};
use crate::physics::{items_within, paddles_ok};
use crate::speed::{
    clamp_speed, clamp_to_max, lemma_clamp_speed_ok, lemma_product_swap, lemma_square_bound,
    lemma_square_sum, lemma_trunc_div, trunc_div, trunc_div_exec,
};
use crate::trig::UNIT;

verus! {

/// The kind of the item spawned when `n` items have been spawned before it:
/// round-robin over enlarge-paddle, speed-up, multi-ball.
pub open spec fn item_kind(n: int) -> ItemType {
    if n % 3 == 0 {
        ItemType::EnlargePaddle
    } else if n % 3 == 1 {
        ItemType::SpeedUp
    } else {
        ItemType::MultiBall
    }
}

/// The items spawned by `events` (one per event whose cell is item-eligible,
/// at that cell, for the event's team) and the count of spawned items
/// afterwards.
pub open spec fn spawned_items(
    events: Seq<CellClicked>,
    cells: Seq<CellEntity>,
    cycle: int,
) -> (Seq<ItemEntity>, int)
    decreases events.len(),
{
    if events.len() == 0 {
        (Seq::empty(), cycle)
    } else {
        let (its, n) = spawned_items(events.drop_last(), cells, cycle);
        let ev = events.last();
        let c = cells[ev.cell as int];
        if c.team.0 == ITEM_TEAM {
            (its.push(ItemEntity { item: Item { item_type: item_kind(n) }, team: ev.team, pos: c.pos }), n + 1)
        } else {
            (its, n)
        }
    }
}

pub open spec fn cells_within(cells: Seq<CellEntity>, bound: int) -> bool {
    forall|i: int| 0 <= i < cells.len() ==> (#[trigger] cells[i]).pos.within(bound)
}

/// Spawns an item at every item-eligible cell that a ball hit; `count` holds
/// the number of items spawned so far and picks each item's kind.
pub fn spawn_item(
    events: &Vec<CellClicked>,
    cells: &Vec<CellEntity>,
    items: &mut Vec<ItemEntity>,
    count: &mut Count,
)
    requires
        events_wf(events@, cells.len() as int),
        old(count).0 + events@.len() <= usize::MAX,
    ensures
        final(items)@ == old(items)@ + spawned_items(events@, cells@, old(count).0 as int).0,
        final(count).0 == spawned_items(events@, cells@, old(count).0 as int).1,
        old(count).0 <= final(count).0 <= old(count).0 + events@.len(),
{
    let ghost start = items@;
    let ghost c0 = count.0 as int;
    let mut i: usize = 0;
    while i < events.len()
        invariant
            0 <= i <= events.len(),
            events_wf(events@, cells.len() as int),
            c0 <= count.0 <= c0 + i,
            c0 + events@.len() <= usize::MAX,
            items@ == start + spawned_items(events@.subrange(0, i as int), cells@, c0).0,
            count.0 == spawned_items(events@.subrange(0, i as int), cells@, c0).1,
        decreases events.len() - i,
    {
        let ev = events[i];
        assert(events@.subrange(0, i as int + 1).drop_last() =~= events@.subrange(0, i as int));
        assert(events@[i as int].cell < cells.len());
        let c = cells[ev.cell];
        if c.team.0 == ITEM_TEAM {
            let k = count.0 % 3;
            let kind = if k == 0 {
                ItemType::EnlargePaddle
            } else if k == 1 {
                ItemType::SpeedUp
            } else {
                ItemType::MultiBall
            };
            items.push(ItemEntity { item: Item { item_type: kind }, team: ev.team, pos: c.pos });
            count.0 = count.0 + 1;
            assert(items@ =~= start + spawned_items(events@.subrange(0, i as int + 1), cells@, c0).0);
        }
        i = i + 1;
    }
    assert(events@.subrange(0, events.len() as int) =~= events@);
}

pub proof fn lemma_spawned_within(events: Seq<CellClicked>, cells: Seq<CellEntity>, cycle: int)
    requires
        crate::collision::cells_wf(cells),
        events_wf(events, cells.len() as int),
    ensures
        items_within(spawned_items(events, cells, cycle).0, COORD_LIMIT as int),
    decreases events.len(),
{
    if events.len() > 0 {
        let ev = events.last();
        assert(events[events.len() - 1].cell < cells.len());
        assert(cells[ev.cell as int].aabb().wf());
        let pre = events.drop_last();
        assert forall|i: int| 0 <= i < pre.len() implies #[trigger] pre[i].cell < cells.len() && pre[i].team.0 < 2 by {
            assert(pre[i] == events[i]);
        }
        lemma_spawned_within(pre, cells, cycle);
    }
}

/// Some paddle of the item's team has a box that meets the item's box.
pub open spec fn collecting_paddle(it: ItemEntity, paddles: Seq<PaddleEntity>) -> bool {
    exists|j: int| 0 <= j < paddles.len() && paddles[j].team == it.team
        && #[trigger] paddles[j].aabb().intersects_spec(it.aabb())
}

/// The items that stay, and one event per item that reached a paddle of its
/// team.
pub open spec fn collect_items(items: Seq<ItemEntity>, paddles: Seq<PaddleEntity>) -> (Seq<ItemEntity>, Seq<ItemCollected>)
    decreases items.len(),
{
    if items.len() == 0 {
        (Seq::empty(), Seq::empty())
    } else {
        let (kept, evs) = collect_items(items.drop_last(), paddles);
        let it = items.last();
        if collecting_paddle(it, paddles) {
            (kept, evs.push(ItemCollected { team: it.team, item_type: it.item.item_type }))
        } else {
            (kept.push(it), evs)
        }
    }
}

/// Removes every item that touches a paddle of its own team and reports it as
/// collected by that team.
pub fn check_paddle_collision(items: &mut Vec<ItemEntity>, paddles: &Vec<PaddleEntity>) -> (r: Vec<ItemCollected>)
    requires
        items_within(old(items)@, 2 * COORD_LIMIT),
        paddles_ok(paddles@),
    ensures
        (final(items)@, r@) == collect_items(old(items)@, paddles@),
        items_within(final(items)@, 2 * COORD_LIMIT),
{
    let ghost start = items@;
    let mut kept: Vec<ItemEntity> = Vec::new();
    let mut evs: Vec<ItemCollected> = Vec::new();
    let mut i: usize = 0;
    while i < items.len()
        invariant
            0 <= i <= items.len(),
            items@ == start,
            items_within(start, 2 * COORD_LIMIT),
            paddles_ok(paddles@),
            (kept@, evs@) == collect_items(start.subrange(0, i as int), paddles@),
            items_within(kept@, 2 * COORD_LIMIT),
        decreases items.len() - i,
    {
        let it = items[i];
        assert(start.subrange(0, i as int + 1).drop_last() =~= start.subrange(0, i as int));
        assert(it.pos.within(2 * COORD_LIMIT));
        let mut hit = false;
        let mut j: usize = 0;
        while j < paddles.len()
            invariant
                0 <= j <= paddles.len(),
                paddles_ok(paddles@),
                it.pos.within(2 * COORD_LIMIT),
                hit == exists|k: int| 0 <= k < j && paddles@[k].team == it.team
                    && #[trigger] paddles@[k].aabb().intersects_spec(it.aabb()),
            decreases paddles.len() - j,
        {
            let p = paddles[j];
            assert(paddles@[j as int].wf());
            let ph = p.paddle.half_size;
            let touch = p.team == it.team && p.pos.x - ph.x <= it.pos.x + ITEM_SIZE && it.pos.x
                - ITEM_SIZE <= p.pos.x + ph.x && p.pos.y - ph.y <= it.pos.y + ITEM_SIZE && it.pos.y
                - ITEM_SIZE <= p.pos.y + ph.y;
            assert(touch == (paddles@[j as int].team == it.team && paddles@[j as int].aabb().intersects_spec(it.aabb())));
            if touch {
                hit = true;
            }
            j = j + 1;
        }
        if hit {
            evs.push(ItemCollected { team: it.team, item_type: it.item.item_type });
        } else {
            kept.push(it);
        }
        i = i + 1;
    }
    assert(start.subrange(0, start.len() as int) =~= start);
    *items = kept;
    evs
}

/// cos 15° and sin 15° in units of `UNIT`, rounded toward zero.
pub const COS_15: i64 = 965_925_826;
pub const SIN_15: i64 = 258_819_045;
/// Speed-up multiplies velocities by `SPEED_UP_NUM / SPEED_UP_DEN`.
pub const SPEED_UP_NUM: i64 = 6;
pub const SPEED_UP_DEN: i64 = 5;

/// The velocity turned by the angle whose sine is `s / UNIT` and cosine is
/// `COS_15 / UNIT`.
pub open spec fn rotated(v: Vec2, s: int) -> Vec2 {
    Vec2 {
        x: trunc_div(v.x * COS_15 - v.y * s, UNIT as int) as i64,
        y: trunc_div(v.x * s + v.y * COS_15, UNIT as int) as i64,
    }
}

proof fn lemma_rotated_ok(v: Vec2, s: int)
    requires
        velocity_ok(v),
        s == SIN_15 || s == -SIN_15,
    ensures
        velocity_ok(rotated(v, s)),
        rotated(v, s).len_sq() <= v.len_sq(),
{
    let (x, y) = (v.x as int, v.y as int);
    let c = COS_15 as int;
    let u = UNIT as int;
    let a = x * c - y * s;
    let b = x * s + y * c;
    lemma_square_sum(x * c, -(y * s));
    lemma_square_sum(x * s, y * c);
    lemma_product_swap(x, c, x, c);
    lemma_product_swap(y, s, y, s);
    lemma_product_swap(x, s, x, s);
    lemma_product_swap(y, c, y, c);
    lemma_product_swap(x, c, y, s);
    lemma_product_swap(x, s, y, c);
    assert(x * c * -(y * s) == -((x * c) * (y * s))) by (nonlinear_arith);
    assert(-(y * s) * -(y * s) == (y * s) * (y * s)) by (nonlinear_arith);
    assert((x * y) * (c * s) == (x * y) * (s * c)) by (nonlinear_arith);
    assert((c * c + s * s) * (x * x + y * y) == (x * x) * (c * c) + (x * x) * (s * s) + (y * y) * (c * c)
        + (y * y) * (s * s)) by (nonlinear_arith);
    assert((x * x) * (c * c) == (x * x) * (c * c) && (y * y) * (s * s) == (y * y) * (s * s));
    assert((x * x) * (s * s) == (x * x) * (s * s));
    assert((c * c) * (x * x) == (x * x) * (c * c)) by (nonlinear_arith);
    assert((s * s) * (x * x) == (x * x) * (s * s)) by (nonlinear_arith);
    assert((c * c) * (y * y) == (y * y) * (c * c)) by (nonlinear_arith);
    assert((s * s) * (y * y) == (y * y) * (s * s)) by (nonlinear_arith);
    assert(a * a + b * b == (c * c + s * s) * (x * x + y * y));
    assert(c * c + s * s <= u * u) by (nonlinear_arith)
        requires c == 965_925_826, s == 258_819_045 || s == -258_819_045, u == 1_000_000_000;
    lemma_trunc_div(a, u);
    lemma_trunc_div(b, u);
    let qa = trunc_div(a, u);
    let qb = trunc_div(b, u);
    assert(x * x + y * y >= 0) by (nonlinear_arith);
    assert((qa * qa + qb * qb) * (u * u) <= (x * x + y * y) * (u * u)) by (nonlinear_arith)
        requires
            qa * qa * (u * u) <= a * a,
            qb * qb * (u * u) <= b * b,
            a * a + b * b == (c * c + s * s) * (x * x + y * y),
            c * c + s * s <= u * u,
            x * x + y * y >= 0;
    assert(qa * qa + qb * qb <= x * x + y * y) by (nonlinear_arith)
        requires (qa * qa + qb * qb) * (u * u) <= (x * x + y * y) * (u * u), u == 1_000_000_000;
    assert(qa * qa >= 0 && qb * qb >= 0) by (nonlinear_arith);
    lemma_square_bound(qa, MAX_BALL_SPEED as int);
    lemma_square_bound(qb, MAX_BALL_SPEED as int);
}

fn rotate_exec(v: Vec2, s: i64) -> (r: Vec2)
    requires
        velocity_ok(v),
        s == SIN_15 || s == -SIN_15,
    ensures
        r == rotated(v, s as int),
        velocity_ok(r),
{
    proof { lemma_rotated_ok(v, s as int); }
    let x = v.x as i128;
    let y = v.y as i128;
    let c = COS_15 as i128;
    let s2 = s as i128;
    assert(abs(x * c - y * s2) <= 2 * MAX_BALL_SPEED * UNIT && abs(x * s2 + y * c) <= 2
        * MAX_BALL_SPEED * UNIT) by (nonlinear_arith)
        requires
            abs(x as int) <= MAX_BALL_SPEED, abs(y as int) <= MAX_BALL_SPEED,
            c == 965_925_826, s2 == 258_819_045 || s2 == -258_819_045;
    let nx = trunc_div_exec(x * c - y * s2, UNIT as i128);
    let ny = trunc_div_exec(x * s2 + y * c, UNIT as i128);
    Vec2 { x: nx as i64, y: ny as i64 }
}

/// A new ball at `b`'s position, not respawning, with `b`'s velocity turned.
pub open spec fn split_copy(b: BallEntity, s: int) -> BallEntity {
    BallEntity { velocity: Velocity(rotated(b.velocity.0, s)), respawning: None, ..b }
}

/// Two new balls for every ball of `team`, turned by -15° and +15°.
pub open spec fn multi_ball_spawns(balls: Seq<BallEntity>, team: crate::components::Team) -> Seq<BallEntity>
    decreases balls.len(),
{
    if balls.len() == 0 {
        Seq::empty()
    } else {
        let b = balls.last();
        let rest = multi_ball_spawns(balls.drop_last(), team);
        if b.team == team {
            rest.push(split_copy(b, -SIN_15)).push(split_copy(b, SIN_15 as int))
        } else {
            rest
        }
    }
}

/// Multi-ball: nothing at the ball cap, else the balls followed by the copies.
pub open spec fn multi_ball(balls: Seq<BallEntity>, team: crate::components::Team) -> Seq<BallEntity> {
    if balls.len() >= MAX_BALL_COUNT {
        balls
    } else {
        balls + multi_ball_spawns(balls, team)
    }
}

/// Speed-up: the velocity times 6/5, then clamped to the maximum speed.
pub open spec fn sped_up(v: Vec2) -> Vec2 {
    clamp_speed(Vec2 {
        x: trunc_div(v.x * SPEED_UP_NUM, SPEED_UP_DEN as int) as i64,
        y: trunc_div(v.y * SPEED_UP_NUM, SPEED_UP_DEN as int) as i64,
    })
}

/// Enlarge-paddle: half-width times 3/2, capped at a third of the field width.
pub open spec fn enlarged(h: int) -> int {
    let g = h * 3 / 2;
    if g < MAX_PADDLE_HALF_WIDTH { g } else { MAX_PADDLE_HALF_WIDTH as int }
}

/// Speed-up applied to one velocity.
fn speed_up_velocity(v: Vec2) -> (r: Vec2)
    requires
        velocity_ok(v),
    ensures
        r == sped_up(v),
        velocity_ok(r),
{
    let wx = trunc_div_exec(v.x as i128 * 6, 5);
    let wy = trunc_div_exec(v.y as i128 * 6, 5);
    proof {
        lemma_trunc_div(v.x * 6, 5);
        lemma_trunc_div(v.y * 6, 5);
    }
    clamp_to_max(Vec2 { x: wx as i64, y: wy as i64 })
}

/// Clamp idempotence for speed-up: a velocity no faster than the maximum stays
/// so however often it is sped up.
pub proof fn lemma_speed_up_bounded(v: Vec2)
    requires
        velocity_ok(v),
    ensures
        velocity_ok(sped_up(v)),
{
    lemma_trunc_div(v.x * 6, 5);
    lemma_trunc_div(v.y * 6, 5);
    lemma_clamp_speed_ok(Vec2 { x: trunc_div(v.x * 6, 5) as i64, y: trunc_div(v.y * 6, 5) as i64 });
}

/// Clamp idempotence for enlarge-paddle: the half-width never exceeds the cap,
/// and at the cap it no longer changes.
pub proof fn lemma_enlarge_bounded(h: int)
    ensures
        enlarged(h) <= MAX_PADDLE_HALF_WIDTH,
        enlarged(MAX_PADDLE_HALF_WIDTH as int) == MAX_PADDLE_HALF_WIDTH,
        enlarged(enlarged(h)) <= MAX_PADDLE_HALF_WIDTH,
{
}

/// Capacity idempotence: multi-ball with the ball count at the cap leaves the
/// balls unchanged.
pub proof fn lemma_multi_ball_at_capacity(balls: Seq<BallEntity>, team: crate::components::Team)
    requires
        balls.len() >= MAX_BALL_COUNT,
    ensures
        multi_ball(balls, team) == balls,
{
}

pub open spec fn speed_up_ball(b: BallEntity, team: crate::components::Team) -> BallEntity {
    if b.team == team {
        BallEntity { velocity: Velocity(sped_up(b.velocity.0)), ..b }
    } else {
        b
    }
}

pub open spec fn enlarge_paddle(p: PaddleEntity, team: crate::components::Team) -> PaddleEntity {
    if p.team == team {
        PaddleEntity {
            paddle: crate::components::Paddle {
                half_size: Vec2 { x: enlarged(p.paddle.half_size.x as int) as i64, ..p.paddle.half_size },
            },
            ..p
        }
    } else {
        p
    }
}

/// What one collected item does to the balls and paddles.
pub open spec fn apply_effect(
    balls: Seq<BallEntity>,
    paddles: Seq<PaddleEntity>,
    ev: ItemCollected,
) -> (Seq<BallEntity>, Seq<PaddleEntity>) {
    match ev.item_type {
        ItemType::MultiBall => (multi_ball(balls, ev.team), paddles),
        ItemType::SpeedUp => (balls.map_values(|b: BallEntity| speed_up_ball(b, ev.team)), paddles),
        ItemType::EnlargePaddle => (balls, paddles.map_values(|p: PaddleEntity| enlarge_paddle(p, ev.team))),
    }
}

/// The collected items applied one after another, in order.
pub open spec fn apply_effects(
    balls: Seq<BallEntity>,
    paddles: Seq<PaddleEntity>,
    evs: Seq<ItemCollected>,
) -> (Seq<BallEntity>, Seq<PaddleEntity>)
    decreases evs.len(),
{
    if evs.len() == 0 {
        (balls, paddles)
    } else {
        let (b, p) = apply_effects(balls, paddles, evs.drop_last());
        apply_effect(b, p, evs.last())
    }
}

fn apply_multi_ball(balls: &mut Vec<BallEntity>, team: crate::components::Team)
    requires
        balls_wf(old(balls)@, 4 * COORD_LIMIT),
    ensures
        final(balls)@ == multi_ball(old(balls)@, team),
        final(balls)@.len() == old(balls)@.len() || final(balls)@.len() < 3 * MAX_BALL_COUNT,
        balls_wf(final(balls)@, 4 * COORD_LIMIT),
{
    if balls.len() >= MAX_BALL_COUNT {
        return;
    }
    let ghost start = balls@;
    let n = balls.len();
    let mut i: usize = 0;
    while i < n
        invariant
            0 <= i <= n,
            n == start.len(),
            balls@ == start + multi_ball_spawns(start.subrange(0, i as int), team),
            n < MAX_BALL_COUNT,
            balls@.len() <= n + 2 * i,
            balls_wf(start, 4 * COORD_LIMIT),
            balls_wf(balls@, 4 * COORD_LIMIT),
        decreases n - i,
    {
        let b = balls[i];
        assert(start.subrange(0, i as int + 1).drop_last() =~= start.subrange(0, i as int));
        assert(balls@[i as int] == start[i as int]);
        assert(start[i as int].wf(4 * COORD_LIMIT));
        if b.team == team {
            let v1 = rotate_exec(b.velocity.0, -SIN_15);
            let v2 = rotate_exec(b.velocity.0, SIN_15);
            balls.push(BallEntity { velocity: Velocity(v1), respawning: None, ..b });
            balls.push(BallEntity { velocity: Velocity(v2), respawning: None, ..b });
        }
        assert(balls@ =~= start + multi_ball_spawns(start.subrange(0, i as int + 1), team));
        i = i + 1;
    }
    assert(start.subrange(0, n as int) =~= start);
}

fn apply_speed_up(balls: &mut Vec<BallEntity>, team: crate::components::Team)
    requires
        balls_wf(old(balls)@, 4 * COORD_LIMIT),
    ensures
        final(balls)@ == old(balls)@.map_values(|b: BallEntity| speed_up_ball(b, team)),
        balls_wf(final(balls)@, 4 * COORD_LIMIT),
{
    let ghost start = balls@;
    let mut i: usize = 0;
    while i < balls.len()
        invariant
            0 <= i <= balls.len(),
            balls@.len() == start.len(),
            balls_wf(start, 4 * COORD_LIMIT),
            forall|j: int| 0 <= j < i ==> #[trigger] balls@[j] == speed_up_ball(start[j], team),
            forall|j: int| i <= j < balls@.len() ==> #[trigger] balls@[j] == start[j],
            balls_wf(balls@, 4 * COORD_LIMIT),
        decreases balls.len() - i,
    {
        let b = balls[i];
        assert(start[i as int].wf(4 * COORD_LIMIT));
        if b.team == team {
            let v = speed_up_velocity(b.velocity.0);
            balls.set(i, BallEntity { velocity: Velocity(v), ..b });
        }
        i = i + 1;
    }
    assert(balls@ =~= start.map_values(|b: BallEntity| speed_up_ball(b, team)));
}

fn apply_enlarge(paddles: &mut Vec<PaddleEntity>, team: crate::components::Team)
    requires
        paddles_ok(old(paddles)@),
    ensures
        final(paddles)@ == old(paddles)@.map_values(|p: PaddleEntity| enlarge_paddle(p, team)),
        paddles_ok(final(paddles)@),
{
    let ghost start = paddles@;
    let mut i: usize = 0;
    while i < paddles.len()
        invariant
            0 <= i <= paddles.len(),
            paddles@.len() == start.len(),
            paddles_ok(start),
            forall|j: int| 0 <= j < i ==> #[trigger] paddles@[j] == enlarge_paddle(start[j], team),
            forall|j: int| i <= j < paddles@.len() ==> #[trigger] paddles@[j] == start[j],
            paddles_ok(paddles@),
        decreases paddles.len() - i,
    {
        let p = paddles[i];
        assert(start[i as int].wf());
        if p.team == team {
            let g = p.paddle.half_size.x * 3 / 2;
            let h = if g < MAX_PADDLE_HALF_WIDTH { g } else { MAX_PADDLE_HALF_WIDTH };
            let np = PaddleEntity {
                paddle: crate::components::Paddle { half_size: Vec2 { x: h, ..p.paddle.half_size } },
                ..p
            };
            paddles.set(i, np);
        }
        i = i + 1;
    }
    assert(paddles@ =~= start.map_values(|p: PaddleEntity| enlarge_paddle(p, team)));
}

/// Applies every collected item to the collecting team's balls or paddle.
pub fn apply_item_effect(evs: &Vec<ItemCollected>, balls: &mut Vec<BallEntity>, paddles: &mut Vec<PaddleEntity>)
    requires
        balls_wf(old(balls)@, 4 * COORD_LIMIT),
        paddles_ok(old(paddles)@),
    ensures
        (final(balls)@, final(paddles)@) == apply_effects(old(balls)@, old(paddles)@, evs@),
        final(balls)@.len() <= old(balls)@.len() + 3 * MAX_BALL_COUNT,
        balls_wf(final(balls)@, 4 * COORD_LIMIT),
        paddles_ok(final(paddles)@),
{
    let ghost b0 = balls@;
    let ghost p0 = paddles@;
    let mut i: usize = 0;
    while i < evs.len()
        invariant
            0 <= i <= evs.len(),
            (balls@, paddles@) == apply_effects(b0, p0, evs@.subrange(0, i as int)),
            balls@.len() <= b0.len() + 3 * MAX_BALL_COUNT,
            balls_wf(balls@, 4 * COORD_LIMIT),
            paddles_ok(paddles@),
        decreases evs.len() - i,
    {
        let ev = evs[i];
        assert(evs@.subrange(0, i as int + 1).drop_last() =~= evs@.subrange(0, i as int));
        match ev.item_type {
            ItemType::MultiBall => apply_multi_ball(balls, ev.team),
            ItemType::SpeedUp => apply_speed_up(balls, ev.team),
            ItemType::EnlargePaddle => apply_enlarge(paddles, ev.team),
        }
        i = i + 1;
    }
    assert(evs@.subrange(0, evs.len() as int) =~= evs@);
}

} // verus!
