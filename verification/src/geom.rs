//! Planar geometry on integer coordinates: vectors, circles, and the
//! playing-field rectangles. Circle-versus-circle intersection is the one
//! collision test every detection pass uses.

use crate::angle::{angle_ok, cos_spec, sin_spec};
use crate::fixed::{lemma_tdiv_bound, mul_scale, tdiv, COORD_LIMIT, SCALE};
use vstd::prelude::*;

verus! {

/// A point or displacement, in fixed-point units (thousandths of a pixel).
#[derive(Clone, Copy, Debug, PartialEq, Eq, Structural)]
pub struct Vec2I {
    pub x: i64,
    pub y: i64,
}

/// Coordinates within the engine's working range.
pub open spec fn vec_ok(v: Vec2I) -> bool {
    -COORD_LIMIT <= v.x <= COORD_LIMIT && -COORD_LIMIT <= v.y <= COORD_LIMIT
}

/// Coordinates within the position range that the engine maintains for
/// every live entity.
pub open spec fn pos_ok(v: Vec2I) -> bool {
    -crate::fixed::POS_LIMIT <= v.x <= crate::fixed::POS_LIMIT && -crate::fixed::POS_LIMIT <= v.y
        <= crate::fixed::POS_LIMIT
}

/// Translation of `p` by `d` with each coordinate clamped to the position
/// range.
pub open spec fn clamp_translate_spec(p: Vec2I, d: Vec2I) -> Vec2I {
    Vec2I {
        x: crate::fixed::clamp_add_spec(p.x as int, d.x as int) as i64,
        y: crate::fixed::clamp_add_spec(p.y as int, d.y as int) as i64,
    }
}

impl Vec2I {
    /// Translates by `d`, clamping each coordinate to the position range.
    pub fn clamp_translate(self, d: Vec2I) -> (r: Vec2I)
        requires
            -0x4000_0000_0000_0000 < self.x < 0x4000_0000_0000_0000,
            -0x4000_0000_0000_0000 < self.y < 0x4000_0000_0000_0000,
            -0x4000_0000_0000_0000 < d.x < 0x4000_0000_0000_0000,
            -0x4000_0000_0000_0000 < d.y < 0x4000_0000_0000_0000,
        ensures
            r == clamp_translate_spec(self, d),
            pos_ok(r),
    {
        Vec2I {
            x: crate::fixed::clamp_add(self.x, d.x),
            y: crate::fixed::clamp_add(self.y, d.y),
        }
    }
}

/// The x component of a length `len` step in direction `a`:
/// `len * cos(a) / SCALE`, rounded toward zero.
pub open spec fn polar_dx(len: int, a: int) -> int {
    tdiv(len * cos_spec(a), SCALE as int)
}

/// The y component of a length `len` step in direction `a`.
pub open spec fn polar_dy(len: int, a: int) -> int {
    tdiv(len * sin_spec(a), SCALE as int)
}

/// The whole displacement of a length `len` step in direction `a`.
pub open spec fn polar_vec(len: int, a: int) -> Vec2I {
    Vec2I { x: polar_dx(len, a) as i64, y: polar_dy(len, a) as i64 }
}

/// A quotient by `SCALE` of a product with a trig value keeps the
/// magnitude of the other factor.
pub proof fn lemma_polar_bound(len: int, t: int)
    requires
        0 <= len,
        -SCALE <= t <= SCALE,
    ensures
        -len <= tdiv(len * t, SCALE as int) <= len,
{
    assert(-(len * SCALE) <= len * t <= len * SCALE) by (nonlinear_arith)
        requires
            0 <= len,
            -SCALE <= t <= SCALE,
    ;
    lemma_tdiv_bound(len * t, SCALE as int, len * SCALE);
    if len * t >= 0 {
        crate::fixed::lemma_tdiv_ordered(len * t, len * SCALE, SCALE as int);
        crate::fixed::lemma_tdiv_exact(len, SCALE as int);
    } else {
        crate::fixed::lemma_tdiv_ordered(-(len * t), len * SCALE, SCALE as int);
        crate::fixed::lemma_tdiv_exact(len, SCALE as int);
    }
}

/// The displacement of one step of length `len` in direction `a`.
pub fn polar_step(len: i64, a: i64) -> (r: Vec2I)
    requires
        0 <= len <= COORD_LIMIT,
        angle_ok(a as int),
    ensures
        r == polar_vec(len as int, a as int),
        r.x == polar_dx(len as int, a as int),
        r.y == polar_dy(len as int, a as int),
        -len <= r.x <= len,
        -len <= r.y <= len,
{
    let c = crate::angle::cos_fp(a);
    let s = crate::angle::sin_fp(a);
    proof {
        lemma_polar_bound(len as int, c as int);
        lemma_polar_bound(len as int, s as int);
    }
    Vec2I { x: mul_scale(len, c), y: mul_scale(len, s) }
}

/// The x component of `v` rotated by angle `a`:
/// `(x cos a - y sin a) / SCALE`, rounded toward zero.
pub open spec fn rot_dx(v: Vec2I, a: int) -> int {
    tdiv(v.x * cos_spec(a) - v.y * sin_spec(a), SCALE as int)
}

/// The y component of `v` rotated by angle `a`.
pub open spec fn rot_dy(v: Vec2I, a: int) -> int {
    tdiv(v.x * sin_spec(a) + v.y * cos_spec(a), SCALE as int)
}

/// Rotates the vector `v` by the angle `a` about the origin, in
/// fixed-point arithmetic.
pub fn rotate_vec(v: Vec2I, a: i64) -> (r: Vec2I)
    requires
        vec_ok(v),
        angle_ok(a as int),
    ensures
        r.x == rot_dx(v, a as int),
        r.y == rot_dy(v, a as int),
        -2 * COORD_LIMIT <= r.x <= 2 * COORD_LIMIT,
        -2 * COORD_LIMIT <= r.y <= 2 * COORD_LIMIT,
{
    let c = crate::angle::cos_fp(a);
    let s = crate::angle::sin_fp(a);
    proof {
        assert(-COORD_LIMIT * SCALE <= v.x * c <= COORD_LIMIT * SCALE
            && -COORD_LIMIT * SCALE <= v.y * s <= COORD_LIMIT * SCALE
            && -COORD_LIMIT * SCALE <= v.x * s <= COORD_LIMIT * SCALE
            && -COORD_LIMIT * SCALE <= v.y * c <= COORD_LIMIT * SCALE) by (nonlinear_arith)
            requires
                vec_ok(v),
                -SCALE <= c <= SCALE,
                -SCALE <= s <= SCALE,
        ;
        lemma_tdiv_bound(v.x as int * c - v.y as int * s, SCALE as int,
            2 * COORD_LIMIT as int * SCALE);
        lemma_tdiv_bound(v.x as int * s + v.y as int * c, SCALE as int,
            2 * COORD_LIMIT as int * SCALE);
        crate::fixed::lemma_tdiv_exact(2 * COORD_LIMIT as int, SCALE as int);
        let nx = v.x as int * c - v.y as int * s;
        let ny = v.x as int * s + v.y as int * c;
        if nx >= 0 {
            crate::fixed::lemma_tdiv_ordered(nx, 2 * COORD_LIMIT as int * SCALE, SCALE as int);
        } else {
            crate::fixed::lemma_tdiv_ordered(-nx, 2 * COORD_LIMIT as int * SCALE, SCALE as int);
        }
        if ny >= 0 {
            crate::fixed::lemma_tdiv_ordered(ny, 2 * COORD_LIMIT as int * SCALE, SCALE as int);
        } else {
            crate::fixed::lemma_tdiv_ordered(-ny, 2 * COORD_LIMIT as int * SCALE, SCALE as int);
        }
    }
    let px = v.x * c - v.y * s;
    let py = v.x * s + v.y * c;
    Vec2I { x: crate::fixed::div_trunc(px, SCALE), y: crate::fixed::div_trunc(py, SCALE) }
}

/// The polar form of a displacement: the greatest whole length not
/// beyond it, and its direction angle. This is how a rotating-only
/// bullet's stored polar offset is first derived from a Cartesian one.
pub fn to_polar(v: Vec2I) -> (r: (i64, i64))
    requires
        -40_000_000 <= v.x <= 40_000_000,
        -40_000_000 <= v.y <= 40_000_000,
    ensures
        0 <= r.0,
        r.0 * r.0 <= v.x * v.x + v.y * v.y < (r.0 + 1) * (r.0 + 1),
        r.1 == crate::angle::dir_spec(v.x as int, v.y as int),
        angle_ok(r.1 as int),
{
    proof {
        assert(0 <= v.x * v.x <= 1_600_000_000_000_000 && 0 <= v.y * v.y
            <= 1_600_000_000_000_000) by (nonlinear_arith)
            requires
                -40_000_000 <= v.x <= 40_000_000,
                -40_000_000 <= v.y <= 40_000_000,
        ;
    }
    let sq = ((v.x * v.x) as u64) + ((v.y * v.y) as u64);
    let len = crate::fixed::isqrt(sq);
    proof {
        assert(len <= 60_000_000) by (nonlinear_arith)
            requires
                len * len <= sq,
                sq <= 3_200_000_000_000_000,
        ;
    }
    let ang = crate::angle::dir_angle(v.x, v.y);
    (len as i64, ang)
}

/// A circular collider: center and radius.
#[derive(Clone, Copy, Debug, PartialEq, Eq, Structural)]
pub struct Circle {
    pub pos: Vec2I,
    pub radius: i64,
}

/// Squared distance between two points, as a mathematical integer.
pub open spec fn dist_sq(a: Vec2I, b: Vec2I) -> int {
    (a.x - b.x) * (a.x - b.x) + (a.y - b.y) * (a.y - b.y)
}

/// Two circles intersect when the distance between their centers is less
/// than the sum of their radii.
pub open spec fn circles_hit(a: Circle, b: Circle) -> bool {
    dist_sq(a.pos, b.pos) < (a.radius + b.radius) * (a.radius + b.radius)
}

impl Circle {
    /// Builds a circle from its radius and center.
    pub fn new(radius: i64, pos: Vec2I) -> (r: Circle)
        ensures
            r == (Circle { pos, radius }),
    {
        Circle { pos, radius }
    }

    /// Whether this circle intersects `other`.
    pub fn hits(&self, other: Circle) -> (r: bool)
        requires
            vec_ok(self.pos),
            vec_ok(other.pos),
            0 <= self.radius <= COORD_LIMIT,
            0 <= other.radius <= COORD_LIMIT,
        ensures
            r == circles_hit(*self, other),
    {
        let dx = (self.pos.x - other.pos.x) as i128;
        let dy = (self.pos.y - other.pos.y) as i128;
        let rs = (self.radius + other.radius) as i128;
        proof {
            assert(0 <= dx * dx <= 4 * COORD_LIMIT * COORD_LIMIT
                && 0 <= dy * dy <= 4 * COORD_LIMIT * COORD_LIMIT
                && 0 <= rs * rs <= 4 * COORD_LIMIT * COORD_LIMIT) by (nonlinear_arith)
                requires
                    -2 * COORD_LIMIT <= dx <= 2 * COORD_LIMIT,
                    -2 * COORD_LIMIT <= dy <= 2 * COORD_LIMIT,
                    0 <= rs <= 2 * COORD_LIMIT,
                    COORD_LIMIT == 4_000_000_000_000,
            ;
        }
        dx * dx + dy * dy < rs * rs
    }
}

/// An axis-aligned rectangle, corners inclusive.
#[derive(Clone, Copy, Debug, PartialEq, Eq, Structural)]
pub struct Rect {
    pub min: Vec2I,
    pub max: Vec2I,
}

/// A point lies in a rectangle when each coordinate is between the
/// corresponding corners, inclusive.
pub open spec fn rect_contains(r: Rect, p: Vec2I) -> bool {
    r.min.x <= p.x <= r.max.x && r.min.y <= p.y <= r.max.y
}

impl Rect {
    /// Whether `p` lies in this rectangle (edges count as inside).
    pub fn contains(&self, p: Vec2I) -> (r: bool)
        ensures
            r == rect_contains(*self, p),
    {
        self.min.x <= p.x && p.x <= self.max.x && self.min.y <= p.y && p.y <= self.max.y
    }
}

/// The visible playing field: a 1920 by 1080 pixel rectangle centered on
/// the origin.
pub open spec fn gameplay_bounds() -> Rect {
    Rect {
        min: Vec2I { x: -960_000i64, y: -540_000i64 },
        max: Vec2I { x: 960_000i64, y: 540_000i64 },
    }
}

/// Builds the playing-field rectangle.
pub fn create_gameplay_rect() -> (r: Rect)
    ensures
        r == gameplay_bounds(),
        r.min.x == -960 * SCALE,
        r.min.y == -540 * SCALE,
        r.max.x == 960 * SCALE,
        r.max.y == 540 * SCALE,
{
    Rect {
        min: Vec2I { x: -960 * SCALE, y: -540 * SCALE },
        max: Vec2I { x: 960 * SCALE, y: 540 * SCALE },
    }
}

/// The cull boundary: enemy bullets outside this generous rectangle are
/// despawned each tick.
pub open spec fn despawn_bounds() -> Rect {
    Rect {
        min: Vec2I { x: -1_500_000i64, y: -1_500_000i64 },
        max: Vec2I { x: 1_500_000i64, y: 1_500_000i64 },
    }
}

/// Builds the cull rectangle.
pub fn despawn_rect() -> (r: Rect)
    ensures
        r == despawn_bounds(),
{
    Rect {
        min: Vec2I { x: -1500 * SCALE, y: -1500 * SCALE },
        max: Vec2I { x: 1500 * SCALE, y: 1500 * SCALE },
    }
}

} // verus!
