//! Integer division rounding toward zero, and holding a velocity to the
//! maximum speed.
use vstd::prelude::*;
use crate::components::{velocity_ok, MAX_BALL_SPEED};
use crate::geometry::{abs, floor_sqrt, isqrt, lemma_floor_sqrt_exists, sign, Vec2};

verus! {

/// Division rounding toward zero.
pub open spec fn trunc_div(a: int, d: int) -> int {
    sign(a) * (abs(a) / d)
}

pub proof fn lemma_trunc_div(a: int, d: int)
    requires
        d > 0,
    ensures
        abs(trunc_div(a, d)) * d <= abs(a),
        trunc_div(a, d) * trunc_div(a, d) * (d * d) <= a * a,
        abs(trunc_div(a, d)) <= abs(a),
{
    let q = abs(a) / d;
    assert(q * d <= abs(a)) by (nonlinear_arith)
        requires q == abs(a) / d, d > 0, abs(a) >= 0;
    assert(q >= 0) by (nonlinear_arith)
        requires q == abs(a) / d, d > 0, abs(a) >= 0;
    assert(abs(trunc_div(a, d)) == q);
    assert(q <= abs(a)) by (nonlinear_arith)
        requires q * d <= abs(a), d > 0, q >= 0;
    assert(trunc_div(a, d) * trunc_div(a, d) == q * q) by (nonlinear_arith)
        requires abs(trunc_div(a, d)) == q;
    assert(q * q * (d * d) <= abs(a) * abs(a)) by (nonlinear_arith)
        requires q * d <= abs(a), q >= 0, d > 0;
    assert(abs(a) * abs(a) == a * a) by (nonlinear_arith);
}

/// The remainder of a division rounding toward zero is smaller than the
/// divisor, and dividing an exact multiple gives the factor back.
pub proof fn lemma_trunc_div_rem(a: int, d: int, k: int)
    requires
        d > 0,
    ensures
        abs(a - trunc_div(a, d) * d) < d,
        trunc_div(k * d, d) == k,
{
    let q = abs(a) / d;
    assert(abs(a) - q * d < d && abs(a) - q * d >= 0) by (nonlinear_arith)
        requires q == abs(a) / d, d > 0, abs(a) >= 0;
    if a > 0 {
        assert(trunc_div(a, d) == q);
    } else if a < 0 {
        assert(trunc_div(a, d) == -q);
        assert((-q) * d == -(q * d)) by (nonlinear_arith);
    } else {
        assert(trunc_div(a, d) == 0);
    }
    assert(abs(k * d) == abs(k) * d) by (nonlinear_arith)
        requires d > 0;
    assert(abs(k * d) / d == abs(k)) by (nonlinear_arith)
        requires d > 0, abs(k * d) == abs(k) * d;
    assert(sign(k * d) == sign(k)) by (nonlinear_arith)
        requires d > 0;
    assert(sign(k) * abs(k) == k);
}

pub fn trunc_div_exec(a: i128, d: i128) -> (r: i128)
    requires
        d > 0,
        abs(a as int) <= i128::MAX,
    ensures
        r == trunc_div(a as int, d as int),
{
    if a < 0 {
        -((-a) / d)
    } else {
        a / d
    }
}

pub proof fn lemma_square_bound(a: int, m: int)
    requires
        m >= 0,
        a * a <= m * m,
    ensures
        abs(a) <= m,
{
    if abs(a) > m {
        assert(abs(a) * abs(a) > m * m) by (nonlinear_arith)
            requires abs(a) > m, m >= 0;
        assert(abs(a) * abs(a) == a * a) by (nonlinear_arith);
    }
}

pub proof fn lemma_square_sum(p: int, q: int)
    ensures
        (p + q) * (p + q) == p * p + 2 * (p * q) + q * q,
{
    assert((p + q) * (p + q) == p * p + 2 * (p * q) + q * q) by (nonlinear_arith);
}

pub proof fn lemma_product_swap(a: int, b: int, c: int, d: int)
    ensures
        (a * b) * (c * d) == (a * c) * (b * d),
{
    assert((a * b) * (c * d) == (a * c) * (b * d)) by (nonlinear_arith);
}

/// The smallest integer whose square is at least `n`.
pub open spec fn ceil_sqrt(n: int) -> int {
    let r = floor_sqrt(n);
    if r * r == n { r } else { r + 1 }
}

/// The velocity scaled back to the maximum speed when it is faster.
pub open spec fn clamp_speed(w: Vec2) -> Vec2 {
    if w.len_sq() > MAX_BALL_SPEED * MAX_BALL_SPEED {
        let l = ceil_sqrt(w.len_sq());
        Vec2 {
            x: trunc_div(w.x * MAX_BALL_SPEED, l) as i64,
            y: trunc_div(w.y * MAX_BALL_SPEED, l) as i64,
        }
    } else {
        w
    }
}

pub proof fn lemma_clamp_ok(w: Vec2, l: int)
    requires
        w.len_sq() > MAX_BALL_SPEED * MAX_BALL_SPEED,
        l > 0,
        l * l >= w.len_sq(),
        abs(w.x as int) <= 8 * MAX_BALL_SPEED,
        abs(w.y as int) <= 8 * MAX_BALL_SPEED,
    ensures
        ({
            let q = Vec2 {
                x: trunc_div(w.x * MAX_BALL_SPEED, l) as i64,
                y: trunc_div(w.y * MAX_BALL_SPEED, l) as i64,
            };
            velocity_ok(q)
        }),
{
    let m = MAX_BALL_SPEED as int;
    let (x, y) = (w.x as int, w.y as int);
    lemma_trunc_div(x * m, l);
    lemma_trunc_div(y * m, l);
    let qx = trunc_div(x * m, l);
    let qy = trunc_div(y * m, l);
    lemma_product_swap(x, m, x, m);
    lemma_product_swap(y, m, y, m);
    assert((qx * qx + qy * qy) * (l * l) <= (x * x + y * y) * (m * m)) by (nonlinear_arith)
        requires
            qx * qx * (l * l) <= (x * m) * (x * m),
            qy * qy * (l * l) <= (y * m) * (y * m),
            (x * m) * (x * m) == (x * x) * (m * m),
            (y * m) * (y * m) == (y * y) * (m * m);
    assert((x * x + y * y) * (m * m) <= (l * l) * (m * m)) by (nonlinear_arith)
        requires x * x + y * y <= l * l;
    assert(qx * qx + qy * qy <= m * m) by (nonlinear_arith)
        requires (qx * qx + qy * qy) * (l * l) <= (l * l) * (m * m), l > 0;
    assert(qx * qx >= 0 && qy * qy >= 0) by (nonlinear_arith);
    lemma_square_bound(qx, m);
    lemma_square_bound(qy, m);
}

/// A velocity of at most eight times the maximum speed per component, held
/// to the maximum speed, is no faster than it.
pub proof fn lemma_clamp_speed_ok(w: Vec2)
    requires
        abs(w.x as int) <= 8 * MAX_BALL_SPEED,
        abs(w.y as int) <= 8 * MAX_BALL_SPEED,
    ensures
        velocity_ok(clamp_speed(w)),
{
    let m = MAX_BALL_SPEED as int;
    if w.len_sq() > m * m {
        let n = w.len_sq();
        assert(n < 0x1_0000_0000_0000_0000_0000) by (nonlinear_arith)
            requires n == w.x * w.x + w.y * w.y, abs(w.x as int) <= 8 * m, abs(w.y as int) <= 8 * m, m == MAX_BALL_SPEED;
        lemma_floor_sqrt_exists(n);
        let r = floor_sqrt(n);
        let l = ceil_sqrt(n);
        assert(l * l >= n) by (nonlinear_arith)
            requires (r * r == n && l == r) || (r * r != n && l == r + 1 && n < (r + 1) * (r + 1));
        assert(l > 0) by (nonlinear_arith)
            requires l * l >= n, n > 0, l >= 0;
        lemma_clamp_ok(w, l);
    } else {
        assert(w.x * w.x >= 0 && w.y * w.y >= 0) by (nonlinear_arith);
        lemma_square_bound(w.x as int, m);
        lemma_square_bound(w.y as int, m);
    }
}

/// Holds a velocity to the maximum speed.
pub fn clamp_to_max(w: Vec2) -> (r: Vec2)
    requires
        abs(w.x as int) <= 8 * MAX_BALL_SPEED,
        abs(w.y as int) <= 8 * MAX_BALL_SPEED,
    ensures
        r == clamp_speed(w),
        velocity_ok(r),
{
    proof { lemma_clamp_speed_ok(w); }
    let m = MAX_BALL_SPEED as i128;
    let wx = w.x as i128;
    let wy = w.y as i128;
    assert(wx * wx <= 64 * m * m && wy * wy <= 64 * m * m && wx * wx >= 0 && wy * wy >= 0)
        by (nonlinear_arith)
        requires abs(wx as int) <= 8 * m, abs(wy as int) <= 8 * m;
    let n = wx * wx + wy * wy;
    assert(n == w.len_sq());
    if n > m * m {
        let r = isqrt(n as u128);
        let r2 = (r as i128) * (r as i128);
        let l: i128 = if r2 == n { r as i128 } else { r as i128 + 1 };
        proof {
            assert(l > 0) by (nonlinear_arith)
                requires
                    (r2 == n && l == r) || (r2 != n && l == r + 1),
                    r2 == r * r, n > 0, r >= 0;
        }
        assert(abs(wx * m) <= 8 * m * m && abs(wy * m) <= 8 * m * m) by (nonlinear_arith)
            requires abs(wx as int) <= 8 * m, abs(wy as int) <= 8 * m, m > 0;
        let qx = trunc_div_exec(wx * m, l);
        let qy = trunc_div_exec(wy * m, l);
        Vec2 { x: qx as i64, y: qy as i64 }
    } else {
        w
    }
}

} // verus!
