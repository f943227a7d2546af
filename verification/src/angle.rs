//! Integer angles.
//!
//! An angle is an `i64` in `0..TURN`, measuring counter-clockwise from the
//! positive x axis in units of 1/6144 of a full turn. 6144 divides evenly
//! by every slot count the emitter patterns use, so ring geometry is exact.
//!
//! `sin_fp` is the engine's own sine: the quadratic approximation
//! `4 a (HALF_TURN - a) / HALF_TURN^2` on the first half turn, mirrored with
//! opposite sign on the second. It has the zeroes, the sign, and the peak
//! of the sine and always lies within `-SCALE ..= SCALE`; every user of it
//! in the engine depends only on those facts.

use crate::fixed::{lemma_tdiv_ordered, SCALE};
use vstd::arithmetic::div_mod::{lemma_div_is_ordered, lemma_div_multiples_vanish,
    lemma_div_pos_is_pos};
use vstd::prelude::*;

verus! {

/// Angle units in a full turn.
pub const TURN: i64 = 6144;

/// Angle units in a half turn.
pub const HALF_TURN: i64 = 3072;

/// Angle units in a quarter turn.
pub const QUARTER_TURN: i64 = 1536;

/// A well-formed (normalized) angle.
pub open spec fn angle_ok(a: int) -> bool {
    0 <= a < TURN
}

/// Sum of two normalized angles, normalized.
pub open spec fn add_angle_spec(a: int, b: int) -> int {
    if a + b < TURN {
        a + b
    } else {
        a + b - TURN
    }
}

/// Adds two normalized angles.
pub fn add_angle(a: i64, b: i64) -> (r: i64)
    requires
        angle_ok(a as int),
        angle_ok(b as int),
    ensures
        r == add_angle_spec(a as int, b as int),
        angle_ok(r as int),
{
    let s = a + b;
    if s < TURN {
        s
    } else {
        s - TURN
    }
}

/// Normalization of an angle that strayed at most one turn out of range.
pub open spec fn norm_spec(a: int) -> int {
    if a < 0 {
        a + TURN
    } else if a >= TURN {
        a - TURN
    } else {
        a
    }
}

/// Normalizes an angle lying within one turn of the normal range.
pub fn norm_angle(a: i64) -> (r: i64)
    requires
        -TURN < a < 2 * TURN,
    ensures
        r == norm_spec(a as int),
        angle_ok(r as int),
{
    if a < 0 {
        a + TURN
    } else if a >= TURN {
        a - TURN
    } else {
        a
    }
}

/// A signed turning rate folded into a normalized angle per tick:
/// turning back by `x` is turning forward by `TURN - x`.
pub fn angle_of_signed(a: i64) -> (r: i64)
    requires
        -TURN < a < TURN,
    ensures
        r == norm_spec(a as int),
        angle_ok(r as int),
{
    if a < 0 {
        a + TURN
    } else {
        a
    }
}

/// The engine's sine: exact quadratic arcs through the sine's zeroes and
/// peaks, scaled by `SCALE`.
pub open spec fn sin_spec(a: int) -> int
    recommends
        angle_ok(a),
{
    if a <= HALF_TURN {
        (4 * a * (HALF_TURN - a) * SCALE) / (HALF_TURN * HALF_TURN)
    } else {
        -((4 * (a - HALF_TURN) * (TURN - a) * SCALE) / (HALF_TURN * HALF_TURN))
    }
}

/// The engine's cosine: the sine a quarter turn ahead.
pub open spec fn cos_spec(a: int) -> int
    recommends
        angle_ok(a),
{
    sin_spec(add_angle_spec(a, QUARTER_TURN as int))
}

/// `0 <= 4 x (h - x) <= h * h` for `0 <= x <= h`: the parabola's peak.
proof fn lemma_parabola_bound(x: int, h: int)
    requires
        0 <= x <= h,
    ensures
        0 <= 4 * x * (h - x) <= h * h,
{
    assert(0 <= 4 * x * (h - x) <= h * h) by (nonlinear_arith)
        requires
            0 <= x <= h,
    ;
}

/// The numerator bound carries through the division: a quotient of at most
/// `SCALE`.
proof fn lemma_sin_quotient_bound(num: int)
    requires
        0 <= num <= (HALF_TURN * HALF_TURN) * SCALE,
    ensures
        0 <= num / (HALF_TURN * HALF_TURN) <= SCALE,
        num == 0 ==> num / (HALF_TURN * HALF_TURN) == 0,
{
    if num == 0 {
        vstd::arithmetic::div_mod::lemma_div_of0(HALF_TURN as int * HALF_TURN as int);
    }
    lemma_div_pos_is_pos(num, HALF_TURN as int * HALF_TURN as int);
    lemma_div_is_ordered(num, (HALF_TURN * HALF_TURN) * SCALE as int,
        HALF_TURN as int * HALF_TURN as int);
    lemma_div_multiples_vanish(SCALE as int, HALF_TURN as int * HALF_TURN as int);
}

/// The engine's sine always lies within `-SCALE ..= SCALE`.
pub proof fn lemma_sin_range(a: int)
    requires
        angle_ok(a),
    ensures
        -SCALE <= sin_spec(a) <= SCALE,
{
    if a <= HALF_TURN {
        lemma_parabola_bound(a, HALF_TURN as int);
        assert(0 <= 4 * a * (HALF_TURN - a) * SCALE <= (HALF_TURN * HALF_TURN) * SCALE)
            by (nonlinear_arith)
            requires
                0 <= 4 * a * (HALF_TURN - a) <= HALF_TURN * HALF_TURN,
                SCALE >= 1,
        ;
        lemma_sin_quotient_bound(4 * a * (HALF_TURN - a) * SCALE);
    } else {
        let u = a - HALF_TURN;
        lemma_parabola_bound(u, HALF_TURN as int);
        assert(4 * u * (TURN - a) == 4 * u * (HALF_TURN - u));
        assert(0 <= 4 * u * (HALF_TURN - u) * SCALE <= (HALF_TURN * HALF_TURN) * SCALE)
            by (nonlinear_arith)
            requires
                0 <= 4 * u * (HALF_TURN - u) <= HALF_TURN * HALF_TURN,
                SCALE >= 1,
        ;
        lemma_sin_quotient_bound(4 * u * (HALF_TURN - u) * SCALE);
    }
}

/// The engine's cosine always lies within `-SCALE ..= SCALE`.
pub proof fn lemma_cos_range(a: int)
    requires
        angle_ok(a),
    ensures
        -SCALE <= cos_spec(a) <= SCALE,
{
    lemma_sin_range(add_angle_spec(a, QUARTER_TURN as int));
}

/// Computes `sin_spec(a)`.
pub fn sin_fp(a: i64) -> (r: i64)
    requires
        angle_ok(a as int),
    ensures
        r == sin_spec(a as int),
        -SCALE <= r <= SCALE,
        a == 0 ==> r == 0,
        a == HALF_TURN ==> r == 0,
{
    let hh: u64 = (HALF_TURN as u64) * (HALF_TURN as u64);
    if a <= HALF_TURN {
        let x = a as u64;
        proof {
            assert(4 * (x as int) * (HALF_TURN - x as int) * SCALE < 0x10_0000_0000_0000)
                by (nonlinear_arith)
                requires
                    0 <= x as int <= HALF_TURN,
                    HALF_TURN == 3072,
                    SCALE == 1000,
            ;
        }
        let num = 4 * x * ((HALF_TURN as u64) - x) * (SCALE as u64);
        proof {
            lemma_parabola_bound(a as int, HALF_TURN as int);
            assert(4 * (a as int) * (HALF_TURN - a as int) * SCALE
                <= (HALF_TURN * HALF_TURN) * SCALE) by (nonlinear_arith)
                requires
                    0 <= 4 * (a as int) * (HALF_TURN - a as int) <= HALF_TURN * HALF_TURN,
                    SCALE >= 1,
            ;
            assert(0 <= 4 * (a as int) * (HALF_TURN - a as int) * SCALE) by (nonlinear_arith)
                requires
                    0 <= 4 * (a as int) * (HALF_TURN - a as int),
                    SCALE >= 1,
            ;
            if a == 0 || a == HALF_TURN {
                assert(num as int == 0) by (nonlinear_arith)
                    requires
                        num as int == 4 * (x as int) * (HALF_TURN - x as int) * SCALE,
                        x as int == 0 || HALF_TURN - x as int == 0,
                ;
            }
            lemma_sin_quotient_bound(num as int);
        }
        let q = num / hh;
        q as i64
    } else {
        let x = (a as u64) - (HALF_TURN as u64);
        proof {
            assert(4 * (x as int) * (TURN - a as int) * SCALE < 0x10_0000_0000_0000)
                by (nonlinear_arith)
                requires
                    0 <= x as int <= HALF_TURN,
                    0 <= TURN - a as int <= HALF_TURN,
                    HALF_TURN == 3072,
                    SCALE == 1000,
            ;
        }
        let num = 4 * x * ((TURN as u64) - (a as u64)) * (SCALE as u64);
        proof {
            let u = a as int - HALF_TURN;
            lemma_parabola_bound(u, HALF_TURN as int);
            assert(4 * u * (TURN - a as int) == 4 * u * (HALF_TURN - u));
            assert(4 * u * (HALF_TURN - u) * SCALE <= (HALF_TURN * HALF_TURN) * SCALE)
                by (nonlinear_arith)
                requires
                    0 <= 4 * u * (HALF_TURN - u) <= HALF_TURN * HALF_TURN,
                    SCALE >= 1,
            ;
            assert(0 <= 4 * u * (HALF_TURN - u) * SCALE) by (nonlinear_arith)
                requires
                    0 <= 4 * u * (HALF_TURN - u),
                    SCALE >= 1,
            ;
            lemma_sin_quotient_bound(num as int);
        }
        let q = num / hh;
        -(q as i64)
    }
}

/// Computes `cos_spec(a)`.
pub fn cos_fp(a: i64) -> (r: i64)
    requires
        angle_ok(a as int),
    ensures
        r == cos_spec(a as int),
        -SCALE <= r <= SCALE,
{
    sin_fp(add_angle(a, QUARTER_TURN))
}

/// The shortest signed way from `cur` to `target`, in `-HALF_TURN ..= HALF_TURN`.
pub open spec fn signed_gap(cur: int, target: int) -> int
    recommends
        angle_ok(cur),
        angle_ok(target),
{
    let d = target - cur;
    if d > HALF_TURN {
        d - TURN
    } else if d < -HALF_TURN {
        d + TURN
    } else {
        d
    }
}

/// `x` clamped to `-m ..= m`.
pub open spec fn clamp_spec(x: int, m: int) -> int {
    if x > m {
        m
    } else if x < -m {
        -m
    } else {
        x
    }
}

/// The angle reached from `cur` by turning toward `target` along the
/// shorter arc, at most `step` units.
pub open spec fn rotate_towards_spec(cur: int, target: int, step: int) -> int
    recommends
        angle_ok(cur),
        angle_ok(target),
        0 <= step,
{
    norm_spec(cur + clamp_spec(signed_gap(cur, target), step))
}

/// Turns `cur` toward `target` by at most `step`, along the shorter arc.
/// Reaches `target` exactly when the gap is within `step`.
pub fn rotate_towards(cur: i64, target: i64, step: i64) -> (r: i64)
    requires
        angle_ok(cur as int),
        angle_ok(target as int),
        0 <= step <= HALF_TURN,
    ensures
        r == rotate_towards_spec(cur as int, target as int, step as int),
        angle_ok(r as int),
        clamp_spec(signed_gap(cur as int, target as int), step as int)
            == signed_gap(cur as int, target as int) ==> r == target,
{
    let d0 = target - cur;
    let d = if d0 > HALF_TURN {
        d0 - TURN
    } else if d0 < -HALF_TURN {
        d0 + TURN
    } else {
        d0
    };
    let c = if d > step {
        step
    } else if d < -step {
        -step
    } else {
        d
    };
    norm_angle(cur + c)
}

/// A bounded offset survives normalization: the angle reached from
/// `center` by a signed offset of at most `h` lies within `h` of
/// `center` along the shorter arc.
pub proof fn lemma_offset_gap(center: int, off: int, h: int)
    requires
        angle_ok(center),
        0 <= h <= HALF_TURN,
        -h <= off <= h,
    ensures
        angle_ok(norm_spec(center + off)),
        -h <= signed_gap(center, norm_spec(center + off)) <= h,
{
}

/// The direction of the `i`-th of `count` evenly spaced ring slots:
/// `i` times the whole-number share of the turn. Slot counts that
/// divide `TURN` (every power of two up to 6144, 3, 6, 12, 24, 48, 64,
/// 96, ...) are spaced exactly.
pub open spec fn slot_spec(count: int, i: int) -> int {
    (TURN as int / count) * i
}

/// Ring slots are normalized angles.
pub proof fn lemma_slot_range(count: int, i: int)
    requires
        1 <= count,
        0 <= i < count,
    ensures
        0 <= slot_spec(count, i) < TURN,
{
    let t = TURN as int / count;
    lemma_div_pos_is_pos(TURN as int, count);
    vstd::arithmetic::div_mod::lemma_fundamental_div_mod(TURN as int, count);
    vstd::arithmetic::div_mod::lemma_mod_bound(TURN as int, count);
    assert(count * t <= TURN);
    if t == 0 {
        assert(t * i == 0) by (nonlinear_arith)
            requires
                t == 0,
        ;
    } else {
        assert(0 <= t * i <= t * (count - 1)) by (nonlinear_arith)
            requires
                t >= 1,
                0 <= i <= count - 1,
        ;
        assert(t * (count - 1) == count * t - t) by (nonlinear_arith);
    }
}

/// Computes `slot_spec(count, i)`.
pub fn slot_angle(count: usize, i: usize) -> (r: i64)
    requires
        1 <= count <= 6144,
        i < count,
    ensures
        r == slot_spec(count as int, i as int),
        angle_ok(r as int),
{
    proof {
        lemma_slot_range(count as int, i as int);
    }
    let t = (TURN as u64) / (count as u64);
    let s = t * (i as u64);
    s as i64
}

/// The engine's direction angle of the vector `(x, y)`: a piecewise-linear
/// ("diamond") approximation of the polar angle, exact on the four axes.
/// The zero vector points along the positive x axis.
pub open spec fn dir_spec(x: int, y: int) -> int {
    if x == 0 && y == 0 {
        0
    } else if x >= 0 && y >= 0 {
        (QUARTER_TURN * y) / (x + y)
    } else if x < 0 && y >= 0 {
        HALF_TURN - (QUARTER_TURN * y) / (y - x)
    } else if x < 0 && y < 0 {
        HALF_TURN + (QUARTER_TURN * (-y)) / ((-x) + (-y))
    } else {
        norm_spec(TURN - (QUARTER_TURN * (-y)) / (x + (-y)))
    }
}

/// A quadrant quotient lies within a quarter turn: `q * b / (a + b)` is in
/// `0 ..= q` for non-negative `a`, `b` not both zero.
proof fn lemma_quadrant_bound(a: int, b: int)
    requires
        a >= 0,
        b >= 0,
        a + b >= 1,
    ensures
        0 <= (QUARTER_TURN * b) / (a + b) <= QUARTER_TURN,
{
    assert(0 <= QUARTER_TURN * b <= QUARTER_TURN * (a + b)) by (nonlinear_arith)
        requires
            a >= 0,
            b >= 0,
    ;
    lemma_tdiv_ordered(QUARTER_TURN * b, QUARTER_TURN * (a + b), a + b);
    lemma_div_multiples_vanish(QUARTER_TURN as int, a + b);
    assert(QUARTER_TURN * (a + b) == (a + b) * QUARTER_TURN) by (nonlinear_arith);
}

/// Computes `dir_spec(x, y)`.
pub fn dir_angle(x: i64, y: i64) -> (r: i64)
    requires
        -0x20_0000_0000_0000 < x < 0x20_0000_0000_0000,
        -0x20_0000_0000_0000 < y < 0x20_0000_0000_0000,
    ensures
        r == dir_spec(x as int, y as int),
        angle_ok(r as int),
{
    if x == 0 && y == 0 {
        0
    } else if x >= 0 && y >= 0 {
        proof { lemma_quadrant_bound(x as int, y as int); }
        let q = ((QUARTER_TURN as u64) * (y as u64)) / ((x as u64) + (y as u64));
        q as i64
    } else if x < 0 && y >= 0 {
        proof { lemma_quadrant_bound(-(x as int), y as int); }
        let q = ((QUARTER_TURN as u64) * (y as u64)) / ((y as u64) + ((-x) as u64));
        HALF_TURN - (q as i64)
    } else if x < 0 && y < 0 {
        proof { lemma_quadrant_bound(-(x as int), -(y as int)); }
        let q = ((QUARTER_TURN as u64) * ((-y) as u64)) / (((-x) as u64) + ((-y) as u64));
        HALF_TURN + (q as i64)
    } else {
        proof { lemma_quadrant_bound(x as int, -(y as int)); }
        let q = ((QUARTER_TURN as u64) * ((-y) as u64)) / ((x as u64) + ((-y) as u64));
        norm_angle(TURN - (q as i64))
    }
}

} // verus!
