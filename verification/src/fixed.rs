//! Fixed-point scalar arithmetic.
//!
//! Engine quantities are integers: coordinates and lengths in thousandths
//! of a pixel, speeds in thousandths of a pixel per tick. `SCALE` is the
//! number of fixed-point units per whole unit, and the helpers here divide
//! products back down after a fixed-point multiplication.

use vstd::arithmetic::div_mod::{
    lemma_div_is_ordered, lemma_div_multiples_vanish, lemma_div_nonincreasing,
    lemma_div_pos_is_pos,
};
use vstd::prelude::*;

verus! {

/// Fixed-point units per whole unit (per pixel, and per unit trig value).
pub const SCALE: i64 = 1000;

/// Largest magnitude allowed for a coordinate, in fixed-point units.
/// Generous: the playing field is a few thousand pixels across.
pub const COORD_LIMIT: i64 = 4_000_000_000_000;

/// Largest magnitude allowed for a speed, in fixed-point units per tick.
pub const SPEED_LIMIT: i64 = 1_000_000_000;

/// Positions saturate at this magnitude (a hundred thousand pixels from
/// the origin, far beyond the cull boundary), so that position updates
/// never overflow however long a bullet flies.
pub const POS_LIMIT: i64 = 100_000_000_000;

/// Addition clamped to the position range.
pub open spec fn clamp_add_spec(a: int, b: int) -> int {
    if a + b > POS_LIMIT {
        POS_LIMIT as int
    } else if a + b < -POS_LIMIT {
        -POS_LIMIT as int
    } else {
        a + b
    }
}

/// Adds two coordinates, clamping the sum to the position range.
pub fn clamp_add(a: i64, b: i64) -> (r: i64)
    requires
        -0x4000_0000_0000_0000 < a < 0x4000_0000_0000_0000,
        -0x4000_0000_0000_0000 < b < 0x4000_0000_0000_0000,
    ensures
        r == clamp_add_spec(a as int, b as int),
        -POS_LIMIT <= r <= POS_LIMIT,
{
    let s = a + b;
    if s > POS_LIMIT {
        POS_LIMIT
    } else if s < -POS_LIMIT {
        -POS_LIMIT
    } else {
        s
    }
}

/// Division that rounds toward zero (the machine's `/` on signed
/// integers); defined for positive divisors.
pub open spec fn tdiv(a: int, b: int) -> int {
    if a >= 0 {
        a / b
    } else {
        -((-a) / b)
    }
}

/// The magnitude of a truncating quotient never exceeds the dividend's.
pub proof fn lemma_tdiv_bound(a: int, b: int, m: int)
    requires
        b >= 1,
        -m <= a <= m,
        0 <= m,
    ensures
        -m <= tdiv(a, b) <= m,
        a >= 0 ==> 0 <= tdiv(a, b) <= a,
        a < 0 ==> a <= tdiv(a, b) <= 0,
{
    if a >= 0 {
        lemma_div_nonincreasing(a, b);
        lemma_div_pos_is_pos(a, b);
    } else {
        lemma_div_nonincreasing(-a, b);
        lemma_div_pos_is_pos(-a, b);
    }
}

/// Dividing an `m`-fold product by `m` gives back the other factor.
pub proof fn lemma_tdiv_exact(a: int, b: int)
    requires
        b >= 1,
    ensures
        tdiv(a * b, b) == a,
{
    if a >= 0 {
        lemma_div_multiples_vanish(a, b);
        assert(a * b == b * a) by (nonlinear_arith);
    } else {
        assert(-(a * b) == b * (-a)) by (nonlinear_arith);
        lemma_div_multiples_vanish(-a, b);
    }
}

/// Truncating quotients respect the order of non-negative dividends.
pub proof fn lemma_tdiv_ordered(a: int, b: int, d: int)
    requires
        0 <= a <= b,
        d >= 1,
    ensures
        0 <= tdiv(a, d) <= tdiv(b, d),
{
    lemma_div_pos_is_pos(a, d);
    lemma_div_is_ordered(a, b, d);
}

/// `a / b` rounded toward zero, as the machine computes it.
pub fn div_trunc(a: i64, b: i64) -> (r: i64)
    requires
        b > 0,
        a > i64::MIN,
    ensures
        r == tdiv(a as int, b as int),
{
    proof {
        lemma_tdiv_bound(a as int, b as int, if a >= 0 { a as int } else { -(a as int) });
    }
    let q = a.checked_div(b);
    q.unwrap()
}

/// `a * b / SCALE`, the fixed-point product, rounded toward zero.
pub fn mul_scale(a: i64, b: i64) -> (r: i64)
    requires
        -COORD_LIMIT <= a <= COORD_LIMIT,
        -2 * SCALE <= b <= 2 * SCALE,
    ensures
        r == tdiv(a * b, SCALE as int),
        -COORD_LIMIT * 2 <= r <= COORD_LIMIT * 2,
{
    proof {
        assert(-COORD_LIMIT * 2 * SCALE <= a * b <= COORD_LIMIT * 2 * SCALE)
            by (nonlinear_arith)
            requires
                -COORD_LIMIT <= a <= COORD_LIMIT,
                -2 * SCALE <= b <= 2 * SCALE,
                SCALE == 1000,
                COORD_LIMIT == 4_000_000_000_000,
        ;
        lemma_tdiv_bound(a as int * b as int, SCALE as int, COORD_LIMIT as int * 2 * SCALE as int);
        lemma_tdiv_exact(COORD_LIMIT as int * 2, SCALE as int);
        if a as int * b >= 0 {
            lemma_tdiv_ordered(a as int * b, COORD_LIMIT as int * 2 * SCALE as int, SCALE as int);
        } else {
            lemma_tdiv_ordered(-(a as int * b), COORD_LIMIT as int * 2 * SCALE as int, SCALE as int);
        }
    }
    let p = a * b;
    div_trunc(p, SCALE)
}

/// Integer square root: the greatest `r` with `r * r <= n`.
pub fn isqrt(n: u64) -> (r: u64)
    requires
        n < 0x10_0000_0000_0000,  // 2^52, so the search bounds cannot overflow
    ensures
        r * r <= n < (r + 1) * (r + 1),
{
    let mut lo: u64 = 0;
    let mut hi: u64 = 0x400_0000;  // 2^26, and (2^26)^2 = 2^52 > n
    while lo + 1 < hi
        invariant
            lo < hi <= 0x400_0000,
            lo * lo <= n,
            n < hi * hi,
        decreases hi - lo,
    {
        let mid = lo + (hi - lo) / 2;
        assert(lo < mid < hi);
        if mid <= n / mid {
            proof {
                assert(mid * mid <= n) by (nonlinear_arith)
                    requires
                        mid >= 1,
                        mid <= n as int / mid as int,
                        n >= 0,
                ;
            }
            lo = mid;
        } else {
            proof {
                assert(n < mid * mid) by (nonlinear_arith)
                    requires
                        mid >= 1,
                        mid > n as int / mid as int,
                        n >= 0,
                ;
            }
            hi = mid;
        }
    }
    lo
}

} // verus!
