//! Resolution of each ball against walls, paddles and cells, in that order;
//! the first entity a ball touches decides what happens to it.
use vstd::prelude::*;
use crate::components::{
    velocity_ok, BallEntity, CellClicked, CellEntity, PaddleEntity, Team, Velocity, WallEntity, MAX_BALL_SPEED, RADIUS_LIMIT,
};
use crate::geometry::{
    abs, dist_sq, floor_sqrt, isqrt, lemma_floor_sqrt_unique, length_squared, sign,
    Aabb, Vec2, COORD_LIMIT,
};
use crate::speed::{
    clamp_speed, clamp_to_max, lemma_trunc_div, lemma_trunc_div_rem, trunc_div, trunc_div_exec,
};
use crate::trig::{cosine, cosine_spec, lemma_unit_bound, sine, sine_spec, UNIT};

verus! {

/// What a contact did to a ball.
#[derive(Clone, Copy, Debug, PartialEq, Eq, Structural)]
pub enum Outcome {
    /// The ball is removed.
    Destroyed,
    /// The ball reached the scoring boundary of the opposing team and is
    /// removed.
    Scored,
    /// The ball carries on with a new position and velocity.
    Bounced(BallEntity),
    /// The ball bounced off the cell at the given index.
    CellHit(BallEntity, usize),
}

pub open spec fn offset(a: Vec2, b: Vec2) -> Vec2 {
    Vec2 { x: (a.x - b.x) as i64, y: (a.y - b.y) as i64 }
}

/// The ball's disc overlaps the point `cp`.
pub open spec fn touches(b: BallEntity, cp: Vec2) -> bool {
    dist_sq(b.pos, cp) < b.ball.radius * b.ball.radius
}

pub open spec fn dot(a: Vec2, b: Vec2) -> int {
    a.x * b.x + a.y * b.y
}

/// `v - 2 (v·d) d / |d|²`: the velocity mirrored about the contact normal
/// `d / |d|`, each component rounded toward zero.
pub open spec fn mirrored(v: Vec2, d: Vec2) -> Vec2 {
    Vec2 {
        x: (v.x - trunc_div(2 * dot(v, d) * d.x, d.len_sq())) as i64,
        y: (v.y - trunc_div(2 * dot(v, d) * d.y, d.len_sq())) as i64,
    }
}

/// The mirrored velocity, held to the maximum speed (which rounding can only
/// pass by a fraction of a sub-unit per second).
pub open spec fn reflect_spec(v: Vec2, d: Vec2) -> Vec2 {
    clamp_speed(mirrored(v, d))
}

/// A ball at `p` whose offset from the contact point `p - d` is `d`, moved
/// along `d` to distance `radius` from the contact point:
/// `(p - d) + d * radius / ⌊|d|⌋`, rounded toward zero. A zero offset gives
/// no direction, and the ball stays.
pub open spec fn push_out_spec(p: Vec2, d: Vec2, radius: int) -> Vec2 {
    if d.x == 0 && d.y == 0 {
        p
    } else {
        let s = floor_sqrt(d.len_sq());
        Vec2 {
            x: (p.x - d.x + trunc_div(d.x * radius, s)) as i64,
            y: (p.y - d.y + trunc_div(d.y * radius, s)) as i64,
        }
    }
}

proof fn lemma_mirror_term_bound(v: Vec2, d: Vec2, c: int)
    requires
        velocity_ok(v),
        c == d.x || c == d.y,
        d.len_sq() > 0,
    ensures
        abs(trunc_div(2 * dot(v, d) * c, d.len_sq())) <= 4 * MAX_BALL_SPEED,
        abs(2 * dot(v, d) * c) <= 4 * MAX_BALL_SPEED * d.len_sq(),
{
    let m = MAX_BALL_SPEED as int;
    let (vx, vy, dx, dy) = (v.x as int, v.y as int, d.x as int, d.y as int);
    let l2 = dx * dx + dy * dy;
    assert(abs(vx * dx + vy * dy) <= m * (abs(dx) + abs(dy))) by (nonlinear_arith)
        requires abs(vx) <= m, abs(vy) <= m;
    assert((abs(dx) + abs(dy)) * abs(c) <= 2 * l2) by (nonlinear_arith)
        requires c == dx || c == dy, l2 == dx * dx + dy * dy;
    assert(abs(2 * (vx * dx + vy * dy) * c) <= 4 * m * l2) by (nonlinear_arith)
        requires
            abs(vx * dx + vy * dy) <= m * (abs(dx) + abs(dy)),
            (abs(dx) + abs(dy)) * abs(c) <= 2 * l2,
            m >= 0;
    let a = 2 * dot(v, d) * c;
    lemma_trunc_div(a, l2);
    let q = trunc_div(a, l2);
    assert(abs(q) <= 4 * m) by (nonlinear_arith)
        requires abs(q) * l2 <= abs(a), abs(a) <= 4 * m * l2, l2 > 0;
}

/// Reflects a velocity about the contact normal of a non-zero offset.
pub fn reflect(v: Vec2, d: Vec2) -> (r: Vec2)
    requires
        velocity_ok(v),
        d.within(RADIUS_LIMIT as int),
        !(d.x == 0 && d.y == 0),
    ensures
        r == reflect_spec(v, d),
        velocity_ok(r),
{
    let (vx, vy) = (v.x as i128, v.y as i128);
    let (dx, dy) = (d.x as i128, d.y as i128);
    assert(dx * dx >= 0 && dy * dy >= 0 && dx * dx <= RADIUS_LIMIT * RADIUS_LIMIT
        && dy * dy <= RADIUS_LIMIT * RADIUS_LIMIT) by (nonlinear_arith)
        requires abs(dx as int) <= RADIUS_LIMIT, abs(dy as int) <= RADIUS_LIMIT;
    assert(dx * dx > 0 || dy * dy > 0) by (nonlinear_arith)
        requires dx != 0 || dy != 0;
    let l2 = dx * dx + dy * dy;
    assert(abs(vx * dx) <= MAX_BALL_SPEED * RADIUS_LIMIT && abs(vy * dy) <= MAX_BALL_SPEED
        * RADIUS_LIMIT) by (nonlinear_arith)
        requires
            abs(vx as int) <= MAX_BALL_SPEED, abs(vy as int) <= MAX_BALL_SPEED,
            abs(dx as int) <= RADIUS_LIMIT, abs(dy as int) <= RADIUS_LIMIT;
    let dt = vx * dx + vy * dy;
    assert(abs(2 * dt * dx) <= 4 * MAX_BALL_SPEED * RADIUS_LIMIT * RADIUS_LIMIT && abs(2 * dt
        * dy) <= 4 * MAX_BALL_SPEED * RADIUS_LIMIT * RADIUS_LIMIT) by (nonlinear_arith)
        requires
            abs(dt as int) <= 2 * MAX_BALL_SPEED * RADIUS_LIMIT,
            abs(dx as int) <= RADIUS_LIMIT, abs(dy as int) <= RADIUS_LIMIT;
    proof {
        lemma_mirror_term_bound(v, d, d.x as int);
        lemma_mirror_term_bound(v, d, d.y as int);
    }
    let qx = trunc_div_exec(2 * dt * dx, l2);
    let qy = trunc_div_exec(2 * dt * dy, l2);
    let w = Vec2 { x: (vx - qx) as i64, y: (vy - qy) as i64 };
    assert(w == mirrored(v, d));
    clamp_to_max(w)
}

/// Moves a ball out of a contact along its offset, to the given radius.
pub fn push_out(p: Vec2, d: Vec2, radius: i64) -> (r: Vec2)
    requires
        p.within(2 * COORD_LIMIT),
        d.within(radius as int),
        0 <= radius <= RADIUS_LIMIT,
    ensures
        r == push_out_spec(p, d, radius as int),
        r.within(2 * COORD_LIMIT + 2 * radius),
{
    if d.x == 0 && d.y == 0 {
        return p;
    }
    let (dx, dy) = (d.x as i128, d.y as i128);
    assert(dx * dx >= 0 && dy * dy >= 0 && dx * dx <= RADIUS_LIMIT * RADIUS_LIMIT
        && dy * dy <= RADIUS_LIMIT * RADIUS_LIMIT) by (nonlinear_arith)
        requires abs(dx as int) <= RADIUS_LIMIT, abs(dy as int) <= RADIUS_LIMIT;
    assert(dx * dx > 0 || dy * dy > 0) by (nonlinear_arith)
        requires dx != 0 || dy != 0;
    let l2 = dx * dx + dy * dy;
    let s = isqrt(l2 as u128) as i128;
    proof {
        assert(s >= 1) by (nonlinear_arith)
            requires l2 >= 1, l2 < (s + 1) * (s + 1), s >= 0;
        assert(abs(dx as int) <= s && abs(dy as int) <= s) by (nonlinear_arith)
            requires l2 < (s + 1) * (s + 1), l2 == dx * dx + dy * dy, s >= 0;
        assert(abs(dx * radius) <= s * radius && abs(dy * radius) <= s * radius) by (nonlinear_arith)
            requires abs(dx as int) <= s, abs(dy as int) <= s, radius >= 0;
        lemma_trunc_div(dx * radius, s as int);
        lemma_trunc_div(dy * radius, s as int);
        let tx = trunc_div(dx * radius, s as int);
        let ty = trunc_div(dy * radius, s as int);
        assert(abs(tx) <= radius && abs(ty) <= radius) by (nonlinear_arith)
            requires abs(tx) * s <= abs(dx * radius), abs(ty) * s <= abs(dy * radius),
                abs(dx * radius) <= s * radius, abs(dy * radius) <= s * radius, s >= 1;
    }
    assert(abs(dx * (radius as i128)) <= RADIUS_LIMIT * RADIUS_LIMIT && abs(dy * (radius as i128))
        <= RADIUS_LIMIT * RADIUS_LIMIT) by (nonlinear_arith)
        requires abs(dx as int) <= RADIUS_LIMIT, abs(dy as int) <= RADIUS_LIMIT, 0 <= radius <= RADIUS_LIMIT;
    let tx = trunc_div_exec(dx * (radius as i128), s);
    let ty = trunc_div_exec(dy * (radius as i128), s);
    Vec2 { x: p.x - d.x + tx as i64, y: p.y - d.y + ty as i64 }
}

/// The ball mirrored about the contact normal for offset `d` and pushed out of
/// the contact.
pub open spec fn bounce(b: BallEntity, d: Vec2) -> BallEntity {
    BallEntity {
        pos: push_out_spec(b.pos, d, b.ball.radius as int),
        velocity: Velocity(reflect_spec(b.velocity.0, d)),
        ..b
    }
}

/// A wall destroys a ball whose centre is inside it; a wall owned by the
/// ball's opposing team is a scoring boundary that takes a touching ball; any
/// other wall reflects a touching ball.
pub open spec fn wall_outcome(b: BallEntity, w: WallEntity) -> Option<Outcome> {
    let cp = w.aabb().closest_spec(b.pos);
    if cp == b.pos {
        Some(Outcome::Destroyed)
    } else if touches(b, cp) {
        if w.team is Some && w.team.unwrap() != b.team {
            Some(Outcome::Scored)
        } else {
            Some(Outcome::Bounced(bounce(b, offset(b.pos, cp))))
        }
    } else {
        None
    }
}

/// The largest angle, in tenths of a degree, at which a ball leaves a paddle.
pub const MAX_PADDLE_ANGLE: i64 = 600;

/// The angle, in tenths of a degree from straight ahead, at which a ball
/// leaves a paddle when it hits at horizontal offset `hit` from the centre of
/// a paddle of half-width `half`: linear in the offset (rounded toward zero),
/// 60° at the edge, and no more.
pub open spec fn paddle_angle(hit: int, half: int) -> int {
    let a = abs(hit) * MAX_PADDLE_ANGLE / half;
    sign(hit) * (if a > MAX_PADDLE_ANGLE { MAX_PADDLE_ANGLE as int } else { a })
}

/// Team 0 plays upward, team 1 downward.
pub open spec fn paddle_direction(t: Team) -> int {
    if t.0 == 0 { 1 } else { -1 }
}

/// A velocity of magnitude `speed` at `angle` tenths of a degree from straight ahead in
/// direction `dir`.
pub open spec fn aimed_velocity(speed: int, angle: int, dir: int) -> Vec2 {
    Vec2 {
        x: (sign(angle) * (speed * sine_spec(abs(angle) as u64) / (UNIT as int))) as i64,
        y: (dir * (speed * cosine_spec(abs(angle) as u64) / (UNIT as int))) as i64,
    }
}

/// A paddle sends a touching ball away from its side at an angle set by where
/// it hit, keeping the ball's speed.
pub open spec fn paddle_outcome(b: BallEntity, p: PaddleEntity) -> Option<Outcome> {
    let cp = p.aabb().closest_spec(b.pos);
    if touches(b, cp) {
        let angle = paddle_angle(b.pos.x - p.pos.x, p.paddle.half_size.x as int);
        let speed = floor_sqrt(b.velocity.0.len_sq());
        Some(Outcome::Bounced(BallEntity {
            pos: push_out_spec(b.pos, offset(b.pos, cp), b.ball.radius as int),
            velocity: Velocity(aimed_velocity(speed, angle, paddle_direction(p.team))),
            ..b
        }))
    } else {
        None
    }
}

/// A cell of another team (or item-eligible) destroys a ball whose centre is
/// inside it and reflects one that touches it.
pub open spec fn cell_outcome(b: BallEntity, c: CellEntity, i: int) -> Option<Outcome> {
    if c.team == b.team {
        None
    } else {
        let cp = c.aabb().closest_spec(b.pos);
        if cp == b.pos {
            Some(Outcome::Destroyed)
        } else if touches(b, cp) {
            Some(Outcome::CellHit(bounce(b, offset(b.pos, cp)), i as usize))
        } else {
            None
        }
    }
}

pub open spec fn first_wall(b: BallEntity, walls: Seq<WallEntity>, i: int) -> Option<Outcome>
    decreases walls.len() - i,
{
    if i < 0 || i >= walls.len() {
        None
    } else {
        match wall_outcome(b, walls[i]) {
            Some(o) => Some(o),
            None => first_wall(b, walls, i + 1),
        }
    }
}

pub open spec fn first_paddle(b: BallEntity, paddles: Seq<PaddleEntity>, i: int) -> Option<Outcome>
    decreases paddles.len() - i,
{
    if i < 0 || i >= paddles.len() {
        None
    } else {
        match paddle_outcome(b, paddles[i]) {
            Some(o) => Some(o),
            None => first_paddle(b, paddles, i + 1),
        }
    }
}

pub open spec fn first_cell(b: BallEntity, cells: Seq<CellEntity>, i: int) -> Option<Outcome>
    decreases cells.len() - i,
{
    if i < 0 || i >= cells.len() {
        None
    } else {
        match cell_outcome(b, cells[i], i) {
            Some(o) => Some(o),
            None => first_cell(b, cells, i + 1),
        }
    }
}

/// Walls first, then paddles, then cells; `None` when the ball touches nothing.
pub open spec fn resolve_spec(
    b: BallEntity,
    walls: Seq<WallEntity>,
    paddles: Seq<PaddleEntity>,
    cells: Seq<CellEntity>,
) -> Option<Outcome> {
    match first_wall(b, walls, 0) {
        Some(o) => Some(o),
        None => match first_paddle(b, paddles, 0) {
            Some(o) => Some(o),
            None => first_cell(b, cells, 0),
        },
    }
}

/// Reflection law: the reflected velocity is the mirror image of the incoming
/// one about the contact normal `d / |d|`, to within the rounding of each
/// component, and never faster than the maximum speed. Off a flat side (one
/// offset component zero) the mirror is exact: the component along the normal
/// is negated, the other kept, and the speed is unchanged.
pub proof fn lemma_reflection_law(v: Vec2, d: Vec2)
    requires
        velocity_ok(v),
        d.within(RADIUS_LIMIT as int),
        !(d.x == 0 && d.y == 0),
    ensures
        abs(mirrored(v, d).x * d.len_sq() - (v.x * d.len_sq() - 2 * dot(v, d) * d.x)) < d.len_sq(),
        abs(mirrored(v, d).y * d.len_sq() - (v.y * d.len_sq() - 2 * dot(v, d) * d.y)) < d.len_sq(),
        mirrored(v, d).len_sq() <= MAX_BALL_SPEED * MAX_BALL_SPEED ==> reflect_spec(v, d) == mirrored(v, d),
        velocity_ok(reflect_spec(v, d)),
        d.y == 0 ==> reflect_spec(v, d) == (Vec2 { x: (-v.x) as i64, y: v.y }),
        d.x == 0 ==> reflect_spec(v, d) == (Vec2 { x: v.x, y: (-v.y) as i64 }),
        d.x == 0 || d.y == 0 ==> reflect_spec(v, d).len_sq() == v.len_sq(),
{
    let (dx, dy) = (d.x as int, d.y as int);
    let l2 = d.len_sq();
    assert(dx * dx >= 0 && dy * dy >= 0) by (nonlinear_arith);
    assert(dx * dx > 0 || dy * dy > 0) by (nonlinear_arith)
        requires dx != 0 || dy != 0;
    lemma_mirror_term_bound(v, d, dx);
    lemma_mirror_term_bound(v, d, dy);
    let ax = 2 * dot(v, d) * dx;
    let ay = 2 * dot(v, d) * dy;
    lemma_trunc_div_rem(ax, l2, 2 * v.x);
    lemma_trunc_div_rem(ay, l2, 2 * v.y);
    assert(mirrored(v, d).x == v.x - trunc_div(ax, l2));
    assert(mirrored(v, d).y == v.y - trunc_div(ay, l2));
    assert(abs(mirrored(v, d).x * l2 - (v.x * l2 - ax)) == abs(ax - trunc_div(ax, l2) * l2)) by (nonlinear_arith)
        requires mirrored(v, d).x == v.x - trunc_div(ax, l2);
    assert(abs(mirrored(v, d).y * l2 - (v.y * l2 - ay)) == abs(ay - trunc_div(ay, l2) * l2)) by (nonlinear_arith)
        requires mirrored(v, d).y == v.y - trunc_div(ay, l2);
    crate::speed::lemma_clamp_speed_ok(mirrored(v, d));
    let (vx, vy) = (v.x as int, v.y as int);
    if dy == 0 {
        assert(ax == (2 * vx) * l2 && ay == 0 * l2) by (nonlinear_arith)
            requires dy == 0, ax == 2 * (vx * dx + vy * dy) * dx, ay == 2 * (vx * dx + vy * dy) * dy,
                l2 == dx * dx + dy * dy;
        lemma_trunc_div_rem(ay, l2, 0);
        assert((-vx) * (-vx) == vx * vx) by (nonlinear_arith);
    }
    if dx == 0 {
        assert(ay == (2 * vy) * l2 && ax == 0 * l2) by (nonlinear_arith)
            requires dx == 0, ax == 2 * (vx * dx + vy * dy) * dx, ay == 2 * (vx * dx + vy * dy) * dy,
                l2 == dx * dx + dy * dy;
        lemma_trunc_div_rem(ax, l2, 0);
        assert((-vy) * (-vy) == vy * vy) by (nonlinear_arith);
    }
}

/// Off a flat side the ball is pushed out along the normal to exactly its
/// radius from the contact point.
pub proof fn lemma_push_out_flat(p: Vec2, d: Vec2, radius: int)
    requires
        radius >= 0,
        d.x == 0 || d.y == 0,
        !(d.x == 0 && d.y == 0),
    ensures
        d.y == 0 ==> push_out_spec(p, d, radius) == (Vec2 { x: (p.x - d.x + sign(d.x as int) * radius) as i64, y: p.y }),
        d.x == 0 ==> push_out_spec(p, d, radius) == (Vec2 { x: p.x, y: (p.y - d.y + sign(d.y as int) * radius) as i64 }),
{
    let c = if d.y == 0 { d.x as int } else { d.y as int };
    let a = abs(c);
    assert(d.len_sq() == c * c);
    assert(a * a == c * c && c * c < (a + 1) * (a + 1) && a >= 1) by (nonlinear_arith)
        requires a == abs(c), c != 0;
    lemma_floor_sqrt_unique(a, c * c);
    assert(abs(c * radius) == a * radius) by (nonlinear_arith)
        requires a == abs(c), radius >= 0;
    assert(trunc_div(c * radius, a) == sign(c) * radius) by (nonlinear_arith)
        requires
            trunc_div(c * radius, a) == sign(c * radius) * (abs(c * radius) / a),
            a == abs(c), a >= 1, radius >= 0,
            c > 0 ==> sign(c) == 1, c < 0 ==> sign(c) == -1,
            c * radius > 0 ==> sign(c * radius) == 1, c * radius < 0 ==> sign(c * radius) == -1,
            c * radius == 0 ==> sign(c * radius) == 0,
            abs(c * radius) == a * radius;
    assert(trunc_div(0 * radius, a) == 0);
}

/// A ball that bounces off a wall or a cell has a non-zero offset from the
/// contact point, leaves with its velocity reflected about that offset, and
/// is pushed out along it.
pub proof fn lemma_bounce_reflects(b: BallEntity, w: WallEntity, c: CellEntity, i: int)
    requires
        b.pos.within(2 * COORD_LIMIT),
        w.aabb().wf(),
        c.aabb().wf(),
    ensures
        wall_outcome(b, w) matches Some(Outcome::Bounced(nb)) ==> {
            let d = offset(b.pos, w.aabb().closest_spec(b.pos));
            &&& !(d.x == 0 && d.y == 0)
            &&& nb.velocity.0 == reflect_spec(b.velocity.0, d)
            &&& nb.pos == push_out_spec(b.pos, d, b.ball.radius as int)
        },
        cell_outcome(b, c, i) matches Some(Outcome::CellHit(nb, _)) ==> {
            let d = offset(b.pos, c.aabb().closest_spec(b.pos));
            &&& !(d.x == 0 && d.y == 0)
            &&& nb.velocity.0 == reflect_spec(b.velocity.0, d)
            &&& nb.pos == push_out_spec(b.pos, d, b.ball.radius as int)
        },
{
}

/// Paddle angle law: a ball hitting the centre of a paddle leaves straight
/// ahead at its speed; one hitting either edge leaves at exactly 60° to that
/// side.
pub proof fn lemma_paddle_angle_law(speed: int, half: int, dir: int)
    requires
        half >= 1,
        speed >= 0,
        dir == 1 || dir == -1,
    ensures
        paddle_angle(0, half) == 0,
        paddle_angle(half, half) == 600,
        paddle_angle(-half, half) == -600,
        aimed_velocity(speed, 0, dir) == (Vec2 { x: 0, y: (dir * speed) as i64 }),
        aimed_velocity(speed, 600, dir) == (Vec2 {
            x: (speed * sine_spec(600) / (UNIT as int)) as i64,
            y: (dir * (speed * cosine_spec(600) / (UNIT as int))) as i64,
        }),
        aimed_velocity(speed, -600, dir) == (Vec2 {
            x: (-(speed * sine_spec(600) / (UNIT as int))) as i64,
            y: (dir * (speed * cosine_spec(600) / (UNIT as int))) as i64,
        }),
        sine_spec(600) == 866_025_403,
        cosine_spec(600) == 500_000_000,
{
    assert(abs(half) * 600 / half == 600) by (nonlinear_arith)
        requires half >= 1;
    assert(abs(-half) * 600 / half == 600) by (nonlinear_arith)
        requires half >= 1;
    assert(speed * 1_000_000_000 / 1_000_000_000 == speed) by (nonlinear_arith);
    crate::trig::lemma_table_landmarks();
    assert(abs(-600) == 600 && abs(600) == 600 && abs(0) == 0);
    assert(sine_spec(0) == 0);
    assert(cosine_spec(0) == 1_000_000_000);
    assert(cosine_spec(600) == 500_000_000);
    assert((abs(-600) as u64) == 600u64);
    assert(sign(-600) == -1);
    let x = speed * sine_spec(600) / (UNIT as int);
    assert(aimed_velocity(speed, -600, dir).x == (-1 * x) as i64);
    assert(-1 * x == -x);
}

pub open spec fn walls_wf(walls: Seq<WallEntity>) -> bool {
    forall|i: int| 0 <= i < walls.len() ==> #[trigger] walls[i].aabb().wf()
}

pub open spec fn paddles_wf(paddles: Seq<PaddleEntity>) -> bool {
    forall|i: int| 0 <= i < paddles.len() ==> #[trigger] paddles[i].wf()
}

pub open spec fn cells_wf(cells: Seq<CellEntity>) -> bool {
    forall|i: int| 0 <= i < cells.len() ==> #[trigger] cells[i].aabb().wf()
}

proof fn lemma_touch_bounds(d: Vec2, r: int)
    requires
        r >= 0,
        d.x * d.x + d.y * d.y < r * r,
    ensures
        d.within(r),
{
    assert(d.x * d.x >= 0 && d.y * d.y >= 0) by (nonlinear_arith);
    assert(abs(d.x as int) < r) by (nonlinear_arith)
        requires d.x * d.x < r * r, r >= 0;
    assert(abs(d.y as int) < r) by (nonlinear_arith)
        requires d.y * d.y < r * r, r >= 0;
}

/// Whether the ball touches `cp`, and the offset from `cp` to the ball.
fn contact(b: &BallEntity, cp: Vec2) -> (r: (bool, Vec2))
    requires
        b.pos.within(2 * COORD_LIMIT),
        cp.within(2 * COORD_LIMIT),
        0 <= b.ball.radius <= RADIUS_LIMIT,
    ensures
        r.0 == touches(*b, cp),
        r.1 == offset(b.pos, cp),
        r.1.within(4 * COORD_LIMIT),
        r.0 ==> r.1.within(b.ball.radius as int),
{
    let dx = b.pos.x - cp.x;
    let dy = b.pos.y - cp.y;
    let d2 = length_squared(dx, dy);
    let rr = b.ball.radius as i128;
    assert(rr * rr <= RADIUS_LIMIT * RADIUS_LIMIT) by (nonlinear_arith)
        requires 0 <= rr <= RADIUS_LIMIT;
    let t = d2 < rr * rr;
    let d = Vec2 { x: dx, y: dy };
    proof {
        if t {
            lemma_touch_bounds(d, b.ball.radius as int);
        }
    }
    (t, d)
}

fn bounce_exec(b: &BallEntity, d: Vec2) -> (r: BallEntity)
    requires
        b.wf(2 * COORD_LIMIT),
        d.within(b.ball.radius as int),
        !(d.x == 0 && d.y == 0),
    ensures
        r == bounce(*b, d),
        r.wf(2 * COORD_LIMIT + 2 * RADIUS_LIMIT),
{
    let pos = push_out(b.pos, d, b.ball.radius);
    let v = reflect(b.velocity.0, d);
    BallEntity { pos, velocity: Velocity(v), ..*b }
}

proof fn lemma_aimed_speed(speed: int, s: int, c: int, sx: int, dir: int)
    requires
        speed >= 0,
        0 <= s <= UNIT,
        0 <= c <= UNIT,
        s * s + c * c <= UNIT * UNIT,
        sx == -1 || sx == 0 || sx == 1,
        dir == -1 || dir == 1,
    ensures
        ({
            let x = sx * (speed * s / (UNIT as int));
            let y = dir * (speed * c / (UNIT as int));
            &&& abs(x) <= speed && abs(y) <= speed
            &&& x * x + y * y <= speed * speed
        }),
{
    let a = speed * s / (UNIT as int);
    let b = speed * c / (UNIT as int);
    assert(0 <= speed * s && 0 <= speed * c) by (nonlinear_arith)
        requires speed >= 0, s >= 0, c >= 0;
    assert(speed * s <= speed * UNIT && speed * c <= speed * UNIT) by (nonlinear_arith)
        requires speed >= 0, s <= UNIT, c <= UNIT;
    assert(0 <= a <= speed);
    assert(0 <= b <= speed);
    assert(a * UNIT <= speed * s);
    assert(b * UNIT <= speed * c);
    assert((a * a + b * b) * (UNIT * UNIT) <= speed * speed * (UNIT * UNIT)) by (nonlinear_arith)
        requires
            0 <= a, 0 <= b, a * UNIT <= speed * s, b * UNIT <= speed * c, speed >= 0, s >= 0,
            c >= 0, s * s + c * c <= UNIT * UNIT;
    assert(a * a + b * b <= speed * speed) by (nonlinear_arith)
        requires (a * a + b * b) * (UNIT * UNIT) <= speed * speed * (UNIT * UNIT);
    assert((sx * a) * (sx * a) <= a * a) by (nonlinear_arith)
        requires sx == -1 || sx == 0 || sx == 1;
    assert((dir * b) * (dir * b) == b * b) by (nonlinear_arith)
        requires dir == -1 || dir == 1;
}

/// `speed` scaled by a table value `t` of the unit `UNIT`.
fn scale_by_unit(speed: i64, t: i64) -> (r: i64)
    requires
        0 <= speed <= MAX_BALL_SPEED,
        0 <= t <= UNIT,
    ensures
        r == speed * t / (UNIT as int),
        0 <= r <= speed,
{
    let (sp, tt) = (speed as i128, t as i128);
    assert(0 <= sp * tt <= sp * UNIT && sp * UNIT <= MAX_BALL_SPEED * UNIT) by (nonlinear_arith)
        requires 0 <= sp <= MAX_BALL_SPEED, 0 <= tt <= UNIT;
    let q = sp * tt / (UNIT as i128);
    assert(q <= sp) by (nonlinear_arith)
        requires q == sp * tt / (UNIT as int), sp * tt <= sp * UNIT, sp >= 0;
    q as i64
}

/// The velocity with which a ball leaves a paddle.
fn aim(speed: u64, angle: i64, team: Team) -> (r: Vec2)
    requires
        speed <= MAX_BALL_SPEED,
        -MAX_PADDLE_ANGLE <= angle <= MAX_PADDLE_ANGLE,
    ensures
        r == aimed_velocity(speed as int, angle as int, paddle_direction(team)),
        r.within(speed as int),
        r.len_sq() <= speed * speed,
{
    let a: u64 = if angle < 0 { (-angle) as u64 } else { angle as u64 };
    let s = sine(a);
    let c = cosine(a);
    proof { lemma_unit_bound(a); }
    let x_mag = scale_by_unit(speed as i64, s);
    let y_mag = scale_by_unit(speed as i64, c);
    let x = if angle < 0 { -x_mag } else if angle > 0 { x_mag } else { 0 };
    let y = if team.0 == 0 { y_mag } else { -y_mag };
    proof {
        lemma_aimed_speed(speed as int, s as int, c as int, sign(angle as int), paddle_direction(team));
    }
    Vec2 { x, y }
}

fn paddle_bounce(b: &BallEntity, p: &PaddleEntity, d: Vec2) -> (r: BallEntity)
    requires
        b.wf(2 * COORD_LIMIT),
        p.wf(),
        d.within(b.ball.radius as int),
    ensures
        r == (BallEntity {
            pos: push_out_spec(b.pos, d, b.ball.radius as int),
            velocity: Velocity(aimed_velocity(
                floor_sqrt(b.velocity.0.len_sq()),
                paddle_angle(b.pos.x - p.pos.x, p.paddle.half_size.x as int),
                paddle_direction(p.team),
            )),
            ..*b
        }),
        r.wf(2 * COORD_LIMIT + 2 * RADIUS_LIMIT),
{
    let hit = b.pos.x - p.pos.x;
    let half = p.paddle.half_size.x;
    let mag: i64 = if hit < 0 { -hit } else { hit };
    assert(mag * MAX_PADDLE_ANGLE <= 1800 * COORD_LIMIT) by (nonlinear_arith)
        requires 0 <= mag <= 3 * COORD_LIMIT;
    let q = mag * MAX_PADDLE_ANGLE / half;
    let capped = if q > MAX_PADDLE_ANGLE { MAX_PADDLE_ANGLE } else { q };
    let angle = if hit < 0 { -capped } else if hit > 0 { capped } else { 0 };
    assert(angle == paddle_angle(hit as int, half as int));
    let v = b.velocity.0;
    let len_sq = length_squared(v.x, v.y);
    assert(len_sq == v.len_sq());
    assert(0 <= len_sq) by (nonlinear_arith)
        requires len_sq == v.x * v.x + v.y * v.y;
    assert(MAX_BALL_SPEED * MAX_BALL_SPEED < 0x1_0000_0000_0000_0000_0000);
    let speed = isqrt(len_sq as u128);
    proof {
        assert(speed * speed <= len_sq);
        assert(speed <= MAX_BALL_SPEED) by (nonlinear_arith)
            requires speed * speed <= MAX_BALL_SPEED * MAX_BALL_SPEED, speed >= 0;
    }
    let vel = aim(speed, angle, p.team);
    proof {
        assert(speed * speed <= MAX_BALL_SPEED * MAX_BALL_SPEED);
    }
    let pos = push_out(b.pos, d, b.ball.radius);
    BallEntity { pos, velocity: Velocity(vel), ..*b }
}

/// What the first wall, paddle or cell the ball touches does to it.
pub fn resolve_ball(
    b: &BallEntity,
    walls: &Vec<WallEntity>,
    paddles: &Vec<PaddleEntity>,
    cells: &Vec<CellEntity>,
) -> (r: Option<Outcome>)
    requires
        b.wf(2 * COORD_LIMIT),
        walls_wf(walls@),
        paddles_wf(paddles@),
        cells_wf(cells@),
    ensures
        r == resolve_spec(*b, walls@, paddles@, cells@),
        r matches Some(Outcome::Bounced(nb)) ==> nb.wf(2 * COORD_LIMIT + 2 * RADIUS_LIMIT),
        r matches Some(Outcome::CellHit(nb, c)) ==> nb.wf(2 * COORD_LIMIT + 2 * RADIUS_LIMIT) && c
            < cells.len(),
{
    let mut i: usize = 0;
    while i < walls.len()
        invariant
            b.wf(2 * COORD_LIMIT),
            walls_wf(walls@),
            0 <= i <= walls.len(),
            first_wall(*b, walls@, 0) == first_wall(*b, walls@, i as int),
        decreases walls.len() - i,
    {
        let w = &walls[i];
        assert(walls@[i as int].aabb().wf());
        let cp = Aabb { center: w.pos, half: w.wall.half_size }.closest_point(b.pos);
        if cp == b.pos {
            return Some(Outcome::Destroyed);
        }
        let (t, d) = contact(b, cp);
        if t {
            if let Some(t) = w.team {
                if t != b.team {
                    return Some(Outcome::Scored);
                }
            }
            return Some(Outcome::Bounced(bounce_exec(b, d)));
        }
        i = i + 1;
    }
    let mut j: usize = 0;
    while j < paddles.len()
        invariant
            b.wf(2 * COORD_LIMIT),
            paddles_wf(paddles@),
            0 <= j <= paddles.len(),
            first_wall(*b, walls@, 0) == None::<Outcome>,
            first_paddle(*b, paddles@, 0) == first_paddle(*b, paddles@, j as int),
        decreases paddles.len() - j,
    {
        let p = &paddles[j];
        assert(paddles@[j as int].wf());
        let cp = Aabb { center: p.pos, half: p.paddle.half_size }.closest_point(b.pos);
        let (t, d) = contact(b, cp);
        if t {
            return Some(Outcome::Bounced(paddle_bounce(b, p, d)));
        }
        j = j + 1;
    }
    let mut k: usize = 0;
    while k < cells.len()
        invariant
            b.wf(2 * COORD_LIMIT),
            cells_wf(cells@),
            0 <= k <= cells.len(),
            first_wall(*b, walls@, 0) == None::<Outcome>,
            first_paddle(*b, paddles@, 0) == None::<Outcome>,
            first_cell(*b, cells@, 0) == first_cell(*b, cells@, k as int),
        decreases cells.len() - k,
    {
        let c = &cells[k];
        if c.team != b.team {
            assert(cells@[k as int].aabb().wf());
            let cp = Aabb { center: c.pos, half: c.cell.half_size }.closest_point(b.pos);
            if cp == b.pos {
                return Some(Outcome::Destroyed);
            }
            let (t, d) = contact(b, cp);
            if t {
                return Some(Outcome::CellHit(bounce_exec(b, d), k));
            }
        }
        k = k + 1;
    }
    None
}

/// Every ball after resolution, in order (removed ones left out), one
/// cell-hit event per ball that bounced off a cell, and the team of each ball
/// that reached a scoring boundary.
pub open spec fn collide_all(
    balls: Seq<BallEntity>,
    walls: Seq<WallEntity>,
    paddles: Seq<PaddleEntity>,
    cells: Seq<CellEntity>,
) -> (Seq<BallEntity>, Seq<CellClicked>, Seq<Team>)
    decreases balls.len(),
{
    if balls.len() == 0 {
        (Seq::empty(), Seq::empty(), Seq::empty())
    } else {
        let (bs, es, sc) = collide_all(balls.drop_last(), walls, paddles, cells);
        let b = balls.last();
        match resolve_spec(b, walls, paddles, cells) {
            None => (bs.push(b), es, sc),
            Some(Outcome::Destroyed) => (bs, es, sc),
            Some(Outcome::Scored) => (bs, es, sc.push(b.team)),
            Some(Outcome::Bounced(nb)) => (bs.push(nb), es, sc),
            Some(Outcome::CellHit(nb, c)) => (bs.push(nb), es.push(CellClicked { cell: c, team: b.team }), sc),
        }
    }
}

pub open spec fn balls_wf(balls: Seq<BallEntity>, bound: int) -> bool {
    forall|i: int| 0 <= i < balls.len() ==> #[trigger] balls[i].wf(bound)
}

pub open spec fn events_wf(events: Seq<CellClicked>, n_cells: int) -> bool {
    forall|i: int| 0 <= i < events.len() ==> #[trigger] events[i].cell < n_cells && events[i].team.0 < 2
}

proof fn lemma_first_wall_source(b: BallEntity, walls: Seq<WallEntity>, i: int)
    requires
        0 <= i,
    ensures
        first_wall(b, walls, i) matches Some(o) ==> exists|j: int| i <= j < walls.len() && wall_outcome(b, #[trigger] walls[j]) == Some(o),
    decreases walls.len() - i,
{
    if i < walls.len() && wall_outcome(b, walls[i]) is None {
        lemma_first_wall_source(b, walls, i + 1);
    }
}

proof fn lemma_first_paddle_source(b: BallEntity, paddles: Seq<PaddleEntity>, i: int)
    requires
        0 <= i,
    ensures
        first_paddle(b, paddles, i) matches Some(o) ==> exists|j: int| i <= j < paddles.len() && paddle_outcome(b, #[trigger] paddles[j]) == Some(o),
    decreases paddles.len() - i,
{
    if i < paddles.len() && paddle_outcome(b, paddles[i]) is None {
        lemma_first_paddle_source(b, paddles, i + 1);
    }
}

/// The reflection and paddle laws for a ball in a resolution pass. A ball
/// that bounces off a wall stays in play, reflected about the contact normal
/// of that wall and pushed out along it. A ball that misses the walls and
/// hits a paddle stays in play, aimed from where it hit at its speed; hitting
/// the paddle's centre it leaves straight ahead at that speed.
pub proof fn lemma_resolution_laws(
    b: BallEntity,
    walls: Seq<WallEntity>,
    paddles: Seq<PaddleEntity>,
    cells: Seq<CellEntity>,
)
    requires
        b.wf(2 * COORD_LIMIT),
        walls_wf(walls),
        paddles_wf(paddles),
    ensures
        first_wall(b, walls, 0) matches Some(Outcome::Bounced(nb)) ==> {
            &&& collide_all(seq![b], walls, paddles, cells).0 == seq![nb]
            &&& exists|j: int| 0 <= j < walls.len() && {
                let d = #[trigger] offset(b.pos, walls[j].aabb().closest_spec(b.pos));
                &&& !(d.x == 0 && d.y == 0)
                &&& nb.velocity.0 == reflect_spec(b.velocity.0, d)
                &&& nb.pos == push_out_spec(b.pos, d, b.ball.radius as int)
            }
        },
        first_wall(b, walls, 0) is None ==> (first_paddle(b, paddles, 0) matches Some(Outcome::Bounced(nb)) ==> {
            let speed = floor_sqrt(b.velocity.0.len_sq());
            &&& collide_all(seq![b], walls, paddles, cells).0 == seq![nb]
            &&& exists|j: int| 0 <= j < paddles.len() && {
                let p = #[trigger] paddles[j];
                &&& nb.velocity.0 == aimed_velocity(
                    speed,
                    paddle_angle(b.pos.x - p.pos.x, p.paddle.half_size.x as int),
                    paddle_direction(p.team),
                )
                &&& (b.pos.x == p.pos.x ==> nb.velocity.0 == (Vec2 { x: 0, y: (paddle_direction(p.team) * speed) as i64 }))
            }
        }),
{
    let one = seq![b];
    assert(one.drop_last() =~= Seq::<BallEntity>::empty());
    assert(one.last() == b);
    lemma_first_wall_source(b, walls, 0);
    lemma_first_paddle_source(b, paddles, 0);
    let e = Seq::<BallEntity>::empty();
    assert(collide_all(e, walls, paddles, cells) == (e, Seq::<CellClicked>::empty(), Seq::<Team>::empty()));
    if let Some(Outcome::Bounced(nb)) = first_wall(b, walls, 0) {
        let j = choose|j: int| 0 <= j < walls.len() && wall_outcome(b, #[trigger] walls[j]) == Some(Outcome::Bounced(nb));
        assert(walls[j].aabb().wf());
        lemma_bounce_reflects(b, walls[j], CellEntity { cell: crate::components::Cell { half_size: Vec2 { x: 0, y: 0 } }, team: b.team, pos: Vec2 { x: 0, y: 0 } }, 0);
        assert(e.push(nb) =~= seq![nb]);
        assert(resolve_spec(b, walls, paddles, cells) == Some(Outcome::Bounced(nb)));
        assert(collide_all(one, walls, paddles, cells).0 == seq![nb]);
        let d = offset(b.pos, walls[j].aabb().closest_spec(b.pos));
        assert(!(d.x == 0 && d.y == 0) && nb.velocity.0 == reflect_spec(b.velocity.0, d)
            && nb.pos == push_out_spec(b.pos, d, b.ball.radius as int));
    }
    if first_wall(b, walls, 0) is None {
        if let Some(Outcome::Bounced(nb)) = first_paddle(b, paddles, 0) {
            let j = choose|j: int| 0 <= j < paddles.len() && paddle_outcome(b, #[trigger] paddles[j]) == Some(Outcome::Bounced(nb));
            assert(paddles[j].wf());
            let speed = floor_sqrt(b.velocity.0.len_sq());
            assert(b.velocity.0.len_sq() >= 0) by (nonlinear_arith)
                requires b.velocity.0.len_sq() == b.velocity.0.x * b.velocity.0.x + b.velocity.0.y * b.velocity.0.y;
            assert(b.velocity.0.len_sq() < 0x1_0000_0000_0000_0000_0000);
            crate::geometry::lemma_floor_sqrt_exists(b.velocity.0.len_sq());
            lemma_paddle_angle_law(speed, paddles[j].paddle.half_size.x as int, paddle_direction(paddles[j].team));
            assert(e.push(nb) =~= seq![nb]);
            assert(resolve_spec(b, walls, paddles, cells) == Some(Outcome::Bounced(nb)));
            assert(collide_all(one, walls, paddles, cells).0 == seq![nb]);
            let p = paddles[j];
            assert(nb.velocity.0 == aimed_velocity(
                speed,
                paddle_angle(b.pos.x - p.pos.x, p.paddle.half_size.x as int),
                paddle_direction(p.team),
            ));
            if b.pos.x == p.pos.x {
                assert(b.pos.x - p.pos.x == 0);
                assert(paddle_angle(b.pos.x - p.pos.x, p.paddle.half_size.x as int) == 0);
            }
        }
    }
}

/// Resolves every ball against the walls, paddles and cells.
pub fn check_collision(
    balls: &Vec<BallEntity>,
    walls: &Vec<WallEntity>,
    paddles: &Vec<PaddleEntity>,
    cells: &Vec<CellEntity>,
) -> (r: (Vec<BallEntity>, Vec<CellClicked>, Vec<Team>))
    requires
        balls_wf(balls@, 2 * COORD_LIMIT),
        walls_wf(walls@),
        paddles_wf(paddles@),
        cells_wf(cells@),
    ensures
        (r.0@, r.1@, r.2@) == collide_all(balls@, walls@, paddles@, cells@),
        r.0@.len() <= balls@.len(),
        r.1@.len() <= balls@.len(),
        balls_wf(r.0@, 2 * COORD_LIMIT + 2 * RADIUS_LIMIT),
        events_wf(r.1@, cells.len() as int),
{
    let mut out: Vec<BallEntity> = Vec::new();
    let mut events: Vec<CellClicked> = Vec::new();
    let mut scored: Vec<Team> = Vec::new();
    let mut i: usize = 0;
    while i < balls.len()
        invariant
            0 <= i <= balls.len(),
            balls_wf(balls@, 2 * COORD_LIMIT),
            walls_wf(walls@),
            paddles_wf(paddles@),
            cells_wf(cells@),
            (out@, events@, scored@) == collide_all(balls@.subrange(0, i as int), walls@, paddles@, cells@),
            out@.len() <= i,
            events@.len() <= i,
            balls_wf(out@, 2 * COORD_LIMIT + 2 * RADIUS_LIMIT),
            events_wf(events@, cells.len() as int),
        decreases balls.len() - i,
    {
        let b = balls[i];
        assert(balls@[i as int].wf(2 * COORD_LIMIT));
        assert(balls@.subrange(0, i as int + 1).drop_last() =~= balls@.subrange(0, i as int));
        assert(balls@.subrange(0, i as int + 1).last() == b);
        match resolve_ball(&b, walls, paddles, cells) {
            None => {
                out.push(b);
            },
            Some(Outcome::Destroyed) => {},
            Some(Outcome::Scored) => {
                scored.push(b.team);
            },
            Some(Outcome::Bounced(nb)) => {
                out.push(nb);
            },
            Some(Outcome::CellHit(nb, c)) => {
                out.push(nb);
                events.push(CellClicked { cell: c, team: b.team });
            },
        }
        i = i + 1;
    }
    assert(balls@.subrange(0, balls.len() as int) =~= balls@);
    (out, events, scored)
}

} // verus!
