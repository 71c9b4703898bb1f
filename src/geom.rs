//! Fixed-point plane geometry.
//!
//! A position is a pair of `i64` in thousandths of a world unit. A direction
//! is a vector whose length is `SCALE` (one world unit), up to rounding.
use vstd::prelude::*;

verus! {

/// Position units per world unit.
pub const SCALE: i64 = 1000;

/// Largest absolute coordinate of a position that the simulation holds.
pub const COORD_MAX: i64 = 1_099_511_627_776;

/// Largest absolute coordinate accepted by the distance computations
/// (four times `COORD_MAX`).
pub const SPAN_MAX: i64 = 4_398_046_511_104;

/// A vector of the plane in position units.
#[derive(Clone, Copy, Debug, PartialEq, Eq, Structural)]
pub struct Vec2i {
    pub x: i64,
    pub y: i64,
}

impl Vec2i {
    pub open spec fn bounded_by(self, m: int) -> bool {
        -m <= self.x <= m && -m <= self.y <= m
    }

    /// Inside the world's bounds.
    pub open spec fn in_world(self) -> bool {
        self.bounded_by(COORD_MAX as int)
    }

    pub fn new(x: i64, y: i64) -> (r: Vec2i)
        ensures
            r.x == x,
            r.y == y,
    {
        Vec2i { x, y }
    }

    pub fn zero() -> (r: Vec2i)
        ensures
            r.x == 0,
            r.y == 0,
    {
        Vec2i { x: 0, y: 0 }
    }
}

pub open spec fn len_sq(x: int, y: int) -> int {
    x * x + y * y
}

/// Squared Euclidean distance between two points.
pub open spec fn dist_sq(a: Vec2i, b: Vec2i) -> int {
    len_sq(a.x - b.x, a.y - b.y)
}

/// Division rounded toward zero, as integer division in Rust does.
pub open spec fn div_trunc(a: int, d: int) -> int {
    if a >= 0 {
        a / d
    } else {
        -((-a) / d)
    }
}

/// `a` clamped into `[lo, hi]`.
pub open spec fn clamp(a: int, lo: int, hi: int) -> int {
    if a < lo {
        lo
    } else if a > hi {
        hi
    } else {
        a
    }
}

/// Floor of the square root.
pub open spec fn isqrt(n: nat) -> nat
    decreases n,
{
    if n == 0 {
        0
    } else {
        let r = isqrt((n - 1) as nat);
        if (r + 1) * (r + 1) <= n {
            r + 1
        } else {
            r
        }
    }
}

pub open spec fn is_root(n: int, r: int) -> bool {
    0 <= r && r * r <= n && n < (r + 1) * (r + 1)
}

proof fn lemma_isqrt_is_root(n: nat)
    ensures
        is_root(n as int, isqrt(n) as int),
    decreases n,
{
    if n > 0 {
        lemma_isqrt_is_root((n - 1) as nat);
        let r = isqrt((n - 1) as nat) as int;
        assert((r + 1) * (r + 1) < (r + 2) * (r + 2)) by (nonlinear_arith)
            requires
                r >= 0,
        ;
    }
}

proof fn lemma_root_unique(n: int, a: int, b: int)
    requires
        is_root(n, a),
        is_root(n, b),
    ensures
        a == b,
{
    if a < b {
        assert((a + 1) * (a + 1) <= b * b) by (nonlinear_arith)
            requires
                0 <= a + 1 <= b,
        ;
    } else if b < a {
        assert((b + 1) * (b + 1) <= a * a) by (nonlinear_arith)
            requires
                0 <= b + 1 <= a,
        ;
    }
}

/// Floor of the square root of `n`, by bisection.
pub fn isqrt_u128(n: u128) -> (r: u128)
    requires
        n < 0x1_0000_0000_0000_0000_0000_0000,
    ensures
        r == isqrt(n as nat),
        r * r <= n,
        n < (r + 1) * (r + 1),
{
    let mut lo: u128 = 0;
    let mut hi: u128 = 0x1_0000_0000_0000;
    assert(hi * hi == 0x1_0000_0000_0000_0000_0000_0000);
    while hi - lo > 1
        invariant
            lo < hi <= 0x1_0000_0000_0000,
            lo * lo <= n,
            n < hi * hi,
        decreases hi - lo,
    {
        let mid: u128 = lo + (hi - lo) / 2;
        assert(mid * mid <= 0x1_0000_0000_0000_0000_0000_0000) by (nonlinear_arith)
            requires
                mid <= 0x1_0000_0000_0000,
        ;
        if mid * mid <= n {
            lo = mid;
        } else {
            hi = mid;
        }
    }
    proof {
        lemma_isqrt_is_root(n as nat);
        lemma_root_unique(n as int, lo as int, isqrt(n as nat) as int);
    }
    lo
}

proof fn lemma_square_bound(d: int, m: int)
    requires
        -m <= d <= m,
    ensures
        0 <= d * d <= m * m,
{
    assert(0 <= d * d <= m * m) by (nonlinear_arith)
        requires
            -m <= d <= m,
    ;
}

/// Squared distance between two points.
pub fn distance_squared(a: Vec2i, b: Vec2i) -> (r: u128)
    requires
        a.bounded_by(SPAN_MAX as int),
        b.bounded_by(SPAN_MAX as int),
    ensures
        r == dist_sq(a, b),
        r < 0x100_0000_0000_0000_0000_0000,
{
    let dx: i128 = a.x as i128 - b.x as i128;
    let dy: i128 = a.y as i128 - b.y as i128;
    proof {
        lemma_square_bound(dx as int, 2 * SPAN_MAX);
        lemma_square_bound(dy as int, 2 * SPAN_MAX);
    }
    let sx: i128 = dx * dx;
    let sy: i128 = dy * dy;
    (sx + sy) as u128
}

/// `a / d` rounded toward zero.
pub fn div_toward_zero(a: i128, d: u128) -> (r: i128)
    requires
        d > 0,
        -0x1_0000_0000_0000_0000_0000_0000 <= a <= 0x1_0000_0000_0000_0000_0000_0000,
    ensures
        r == div_trunc(a as int, d as int),
{
    if a >= 0 {
        ((a as u128) / d) as i128
    } else {
        let m: u128 = (-a) as u128;
        -((m / d) as i128)
    }
}

/// The direction of `(x, y)` as a vector of length `SCALE`, rounded toward
/// zero; the zero vector has no direction and gives zero.
pub open spec fn unit_of(x: int, y: int) -> (int, int) {
    let len = isqrt(len_sq(x, y) as nat) as int;
    if len == 0 {
        (0, 0)
    } else {
        (div_trunc(x * SCALE, len), div_trunc(y * SCALE, len))
    }
}

proof fn lemma_unit_bounded(x: int, y: int, len: int)
    requires
        is_root(len_sq(x, y), len),
        len > 0,
    ensures
        -(SCALE as int) <= div_trunc(x * SCALE, len) <= SCALE,
        -(SCALE as int) <= div_trunc(y * SCALE, len) <= SCALE,
{
    assert(x * x <= len * len + len * 2) by (nonlinear_arith)
        requires
            x * x + y * y < (len + 1) * (len + 1),
            len > 0,
    ;
    assert(-len <= x <= len) by (nonlinear_arith)
        requires
            x * x + y * y < (len + 1) * (len + 1),
            len > 0,
    ;
    assert(-len <= y <= len) by (nonlinear_arith)
        requires
            x * x + y * y < (len + 1) * (len + 1),
            len > 0,
    ;
    assert(-(SCALE as int) <= div_trunc(x * SCALE, len) <= SCALE) by (nonlinear_arith)
        requires
            -len <= x <= len,
            len > 0,
    ;
    assert(-(SCALE as int) <= div_trunc(y * SCALE, len) <= SCALE) by (nonlinear_arith)
        requires
            -len <= y <= len,
            len > 0,
    ;
}

/// The direction from `from` toward the point `(tx, ty)`.
pub open spec fn toward(from: Vec2i, tx: int, ty: int) -> Vec2i {
    let u = unit_of(tx - from.x, ty - from.y);
    Vec2i { x: u.0 as i64, y: u.1 as i64 }
}

/// Sum of two positions, as the point it names.
pub open spec fn offset(a: Vec2i, b: Vec2i) -> Vec2i {
    Vec2i { x: (a.x + b.x) as i64, y: (a.y + b.y) as i64 }
}

/// `a + b`, for points inside the world.
pub fn add_points(a: Vec2i, b: Vec2i) -> (r: Vec2i)
    requires
        a.in_world(),
        b.in_world(),
    ensures
        r == offset(a, b),
        r.x == a.x + b.x,
        r.y == a.y + b.y,
        r.bounded_by(2 * COORD_MAX),
{
    Vec2i { x: a.x + b.x, y: a.y + b.y }
}

/// Direction from `from` to `to`, as a vector of length `SCALE`.
pub fn direction(from: Vec2i, to: Vec2i) -> (r: Vec2i)
    requires
        from.bounded_by(SPAN_MAX as int),
        to.bounded_by(SPAN_MAX as int),
    ensures
        (r.x as int, r.y as int) == unit_of(to.x - from.x, to.y - from.y),
        r == toward(from, to.x as int, to.y as int),
        r.bounded_by(SCALE as int),
{
    let n = distance_squared(to, from);
    let len = isqrt_u128(n);
    proof {
        lemma_isqrt_is_root(n as nat);
    }
    if len == 0 {
        return Vec2i { x: 0, y: 0 };
    }
    proof {
        lemma_unit_bounded(to.x - from.x, to.y - from.y, len as int);
    }
    let dx: i128 = to.x as i128 - from.x as i128;
    let dy: i128 = to.y as i128 - from.y as i128;
    let ux = div_toward_zero(dx * 1000, len);
    let uy = div_toward_zero(dy * 1000, len);
    Vec2i { x: ux as i64, y: uy as i64 }
}

/// One step of straight motion: `pos + dir * speed * dt_ms / 1000`, each
/// coordinate rounded toward zero and clamped into the world.
pub open spec fn stepped(pos: Vec2i, dir: Vec2i, speed: int, dt_ms: int) -> Vec2i {
    Vec2i {
        x: clamp(pos.x + div_trunc(dir.x * speed * dt_ms, 1000), -COORD_MAX, COORD_MAX as int) as i64,
        y: clamp(pos.y + div_trunc(dir.y * speed * dt_ms, 1000), -COORD_MAX, COORD_MAX as int) as i64,
    }
}

/// Largest speed, in world units per second.
pub const SPEED_MAX: i64 = 1_000_000;

fn step_coord(p: i64, d: i64, speed: i64, dt_ms: u32) -> (r: i64)
    requires
        -COORD_MAX <= p <= COORD_MAX,
        -SCALE <= d <= SCALE,
        0 <= speed <= SPEED_MAX,
    ensures
        r == clamp(p + div_trunc(d * speed * dt_ms, 1000), -COORD_MAX, COORD_MAX as int),
{
    assert(-1_000_000_000_000_000_000_000i128 <= d * speed * dt_ms <= 1_000_000_000_000_000_000_000i128)
        by (nonlinear_arith)
        requires
            -1000 <= d <= 1000,
            0 <= speed <= 1_000_000,
            0 <= dt_ms <= 0xffff_ffff,
    ;
    assert(-1_000_000_000i128 <= d * speed <= 1_000_000_000i128) by (nonlinear_arith)
        requires
            -1000 <= d <= 1000,
            0 <= speed <= 1_000_000,
    ;
    let ds: i128 = (d as i128) * (speed as i128);
    let prod: i128 = ds * (dt_ms as i128);
    let delta = div_toward_zero(prod, 1000);
    let q: i128 = p as i128 + delta;
    if q < -(COORD_MAX as i128) {
        -COORD_MAX
    } else if q > COORD_MAX as i128 {
        COORD_MAX
    } else {
        q as i64
    }
}

/// Moves `pos` along the direction `dir` at `speed` world units per second
/// for `dt_ms` milliseconds.
pub fn move_step(pos: Vec2i, dir: Vec2i, speed: i64, dt_ms: u32) -> (r: Vec2i)
    requires
        pos.in_world(),
        dir.bounded_by(SCALE as int),
        0 <= speed <= SPEED_MAX,
    ensures
        r == stepped(pos, dir, speed as int, dt_ms as int),
        r.in_world(),
{
    Vec2i { x: step_coord(pos.x, dir.x, speed, dt_ms), y: step_coord(pos.y, dir.y, speed, dt_ms) }
}

} // verus!
