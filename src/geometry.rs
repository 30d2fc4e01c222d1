//! Fixed-point planar geometry: vectors, axis-aligned boxes, closest points,
//! and integer square roots.
use vstd::prelude::*;

verus! {

/// Number of sub-units in one world unit.
pub const SCALE: i64 = 1000;

/// Bound on the magnitude of every coordinate and extent the geometry accepts.
pub const COORD_LIMIT: i64 = 0x100_0000_0000;

/// A planar vector in sub-units.
#[derive(Clone, Copy, Debug, PartialEq, Eq, Structural)]
pub struct Vec2 {
    pub x: i64,
    pub y: i64,
}

pub open spec fn abs(v: int) -> int {
    if v < 0 { -v } else { v }
}

pub open spec fn clamp(v: int, lo: int, hi: int) -> int {
    if v < lo { lo } else if v > hi { hi } else { v }
}

pub open spec fn sign(v: int) -> int {
    if v < 0 { -1 } else if v > 0 { 1 } else { 0 }
}

impl Vec2 {
    /// Every coordinate lies within `bound` of the origin.
    pub open spec fn within(self, bound: int) -> bool {
        abs(self.x as int) <= bound && abs(self.y as int) <= bound
    }

    pub open spec fn len_sq(self) -> int {
        self.x * self.x + self.y * self.y
    }
}

pub open spec fn dist_sq(a: Vec2, b: Vec2) -> int {
    (a.x - b.x) * (a.x - b.x) + (a.y - b.y) * (a.y - b.y)
}

/// The squared length of `(dx, dy)`.
pub fn length_squared(dx: i64, dy: i64) -> (r: i128)
    requires
        abs(dx as int) <= 4 * COORD_LIMIT,
        abs(dy as int) <= 4 * COORD_LIMIT,
    ensures
        r == dx * dx + dy * dy,
{
    let x = dx as i128;
    let y = dy as i128;
    assert(x * x <= 16 * COORD_LIMIT * COORD_LIMIT) by (nonlinear_arith)
        requires abs(x as int) <= 4 * COORD_LIMIT;
    assert(y * y <= 16 * COORD_LIMIT * COORD_LIMIT) by (nonlinear_arith)
        requires abs(y as int) <= 4 * COORD_LIMIT;
    assert(x * x >= 0 && y * y >= 0) by (nonlinear_arith);
    x * x + y * y
}

/// An axis-aligned box given by its centre and its non-negative half extents.
#[derive(Clone, Copy, Debug, PartialEq, Eq, Structural)]
pub struct Aabb {
    pub center: Vec2,
    pub half: Vec2,
}

impl Aabb {
    pub open spec fn wf(self) -> bool {
        &&& self.center.within(COORD_LIMIT as int)
        &&& 0 <= self.half.x <= COORD_LIMIT
        &&& 0 <= self.half.y <= COORD_LIMIT
    }

    pub open spec fn min_x(self) -> int { self.center.x - self.half.x }
    pub open spec fn max_x(self) -> int { self.center.x + self.half.x }
    pub open spec fn min_y(self) -> int { self.center.y - self.half.y }
    pub open spec fn max_y(self) -> int { self.center.y + self.half.y }

    /// The point of the box nearest to `p`.
    pub open spec fn closest_spec(self, p: Vec2) -> Vec2 {
        Vec2 {
            x: clamp(p.x as int, self.min_x(), self.max_x()) as i64,
            y: clamp(p.y as int, self.min_y(), self.max_y()) as i64,
        }
    }

    /// The two boxes touch or overlap (closed intervals on both axes).
    pub open spec fn intersects_spec(self, o: Aabb) -> bool {
        &&& self.min_x() <= o.max_x()
        &&& o.min_x() <= self.max_x()
        &&& self.min_y() <= o.max_y()
        &&& o.min_y() <= self.max_y()
    }

    pub fn closest_point(&self, p: Vec2) -> (r: Vec2)
        requires
            self.wf(),
        ensures
            r == self.closest_spec(p),
    {
        let lo_x = self.center.x - self.half.x;
        let hi_x = self.center.x + self.half.x;
        let lo_y = self.center.y - self.half.y;
        let hi_y = self.center.y + self.half.y;
        let x = if p.x < lo_x { lo_x } else if p.x > hi_x { hi_x } else { p.x };
        let y = if p.y < lo_y { lo_y } else if p.y > hi_y { hi_y } else { p.y };
        Vec2 { x, y }
    }

    pub fn intersects(&self, o: &Aabb) -> (r: bool)
        requires
            self.wf(),
            o.wf(),
        ensures
            r == self.intersects_spec(*o),
    {
        self.center.x - self.half.x <= o.center.x + o.half.x
            && o.center.x - o.half.x <= self.center.x + self.half.x
            && self.center.y - self.half.y <= o.center.y + o.half.y
            && o.center.y - o.half.y <= self.center.y + self.half.y
    }
}

/// `r` is the integer square root of `n`.
pub open spec fn is_floor_sqrt(r: int, n: int) -> bool {
    r >= 0 && r * r <= n < (r + 1) * (r + 1)
}

/// The largest integer whose square does not exceed `n`.
pub open spec fn floor_sqrt(n: int) -> int {
    choose|r: int| is_floor_sqrt(r, n)
}

pub proof fn lemma_floor_sqrt_unique(r: int, n: int)
    requires
        is_floor_sqrt(r, n),
    ensures
        floor_sqrt(n) == r,
{
    let s = floor_sqrt(n);
    assert(is_floor_sqrt(s, n));
    if s < r {
        assert((s + 1) * (s + 1) <= r * r) by (nonlinear_arith)
            requires s >= 0, s + 1 <= r;
    } else if r < s {
        assert((r + 1) * (r + 1) <= s * s) by (nonlinear_arith)
            requires r >= 0, r + 1 <= s;
    }
}

proof fn lemma_sqrt_between(n: int, lo: int, hi: int)
    requires
        0 <= lo < hi,
        lo * lo <= n < hi * hi,
    ensures
        is_floor_sqrt(floor_sqrt(n), n),
    decreases hi - lo,
{
    if hi - lo == 1 {
        assert(is_floor_sqrt(lo, n));
    } else {
        let mid = lo + (hi - lo) / 2;
        if mid * mid <= n {
            lemma_sqrt_between(n, mid, hi);
        } else {
            lemma_sqrt_between(n, lo, mid);
        }
    }
}

/// Every non-negative integer below the bisection range has an integer square
/// root.
pub proof fn lemma_floor_sqrt_exists(n: int)
    requires
        0 <= n < 0x1_0000_0000_0000_0000_0000,
    ensures
        is_floor_sqrt(floor_sqrt(n), n),
{
    let hi: int = 0x100_0000_0000;
    assert(hi * hi == 0x1_0000_0000_0000_0000_0000) by (nonlinear_arith)
        requires hi == 0x100_0000_0000;
    lemma_sqrt_between(n, 0, hi);
}

/// Integer square root by bisection.
pub fn isqrt(n: u128) -> (r: u64)
    requires
        n < 0x1_0000_0000_0000_0000_0000,
    ensures
        r == floor_sqrt(n as int),
        is_floor_sqrt(r as int, n as int),
        r <= 0x100_0000_0000,
{
    let mut lo: u64 = 0;
    let mut hi: u64 = 0x100_0000_0000;
    assert(hi * hi == 0x1_0000_0000_0000_0000_0000) by (nonlinear_arith)
        requires hi == 0x100_0000_0000;
    while hi - lo > 1
        invariant
            lo < hi <= 0x100_0000_0000,
            lo * lo <= n < hi * hi,
        decreases hi - lo,
    {
        let mid = lo + (hi - lo) / 2;
        let m = mid as u128;
        assert(m * m <= 0x1_0000_0000_0000_0000_0000) by (nonlinear_arith)
            requires m <= 0x100_0000_0000;
        if m * m <= n {
            lo = mid;
        } else {
            hi = mid;
        }
    }
    proof { lemma_floor_sqrt_unique(lo as int, n as int); }
    lo
}

} // verus!
