//! Fixed-point arithmetic used throughout the simulation.
//!
//! Every coefficient, coordinate and trail intensity is an integer count of
//! millionths: the value `1_000_000` stands for `1.0`. Normalized field
//! coordinates live in `[0, SCALE)`; the field is a torus, so a coordinate
//! pushed past either edge wraps to the opposite edge.

use vstd::prelude::*;

verus! {

/// Number of fixed-point units in one whole: values are in millionths.
pub const SCALE: i64 = 1_000_000;

/// Largest trail intensity a single cell may hold. Chosen so that a cell
/// value multiplied by `SCALE` still fits comfortably in an `i64`.
pub const CELL_MAX: i64 = 1_000_000_000_000;

/// `v` pulled into the closed interval `[lo, hi]`.
pub open spec fn clamped(v: int, lo: int, hi: int) -> int {
    if v < lo {
        lo
    } else if v > hi {
        hi
    } else {
        v
    }
}

/// Clamp a value into `[lo, hi]`.
pub fn clamp(v: i64, lo: i64, hi: i64) -> (r: i64)
    requires
        lo <= hi,
    ensures
        r == clamped(v as int, lo as int, hi as int),
        lo <= r <= hi,
{
    if v < lo {
        lo
    } else if v > hi {
        hi
    } else {
        v
    }
}

/// A coordinate moved by `delta` and wrapped to the torus `[0, SCALE)`.
/// `%` on `int` is Euclidean, so the result is non-negative.
pub open spec fn wrapped(pos: int, delta: int) -> int {
    (pos + delta) % (SCALE as int)
}

/// The wrapped coordinate lies on the torus.
pub proof fn lemma_wrapped_range(pos: int, delta: int)
    ensures
        0 <= wrapped(pos, delta) < SCALE,
{
    vstd::arithmetic::div_mod::lemma_mod_division_less_than_divisor(pos + delta, SCALE as int);
}

/// Boundary law: a step past either edge re-enters from the opposite
/// edge — the coordinate translates by one whole field width instead of
/// leaving `[0, SCALE)` or sticking to the edge.
pub proof fn lemma_wrap_at_edges(pos: int, delta: int)
    requires
        0 <= pos < SCALE,
        -SCALE <= delta <= SCALE,
    ensures
        pos + delta >= SCALE ==> wrapped(pos, delta) == pos + delta - SCALE,
        pos + delta < 0 ==> wrapped(pos, delta) == pos + delta + SCALE,
        0 <= pos + delta < SCALE ==> wrapped(pos, delta) == pos + delta,
{
    let s = SCALE as int;
    if pos + delta >= s {
        vstd::arithmetic::div_mod::lemma_mod_sub_multiples_vanish(pos + delta, s);
        vstd::arithmetic::div_mod::lemma_small_mod((pos + delta - s) as nat, s as nat);
    } else if pos + delta < 0 {
        vstd::arithmetic::div_mod::lemma_mod_add_multiples_vanish(pos + delta, s);
        vstd::arithmetic::div_mod::lemma_small_mod((pos + delta + s) as nat, s as nat);
    } else {
        vstd::arithmetic::div_mod::lemma_small_mod((pos + delta) as nat, s as nat);
    }
}

/// A step of zero leaves a torus coordinate where it was.
pub proof fn lemma_wrapped_identity(pos: int)
    requires
        0 <= pos < SCALE,
    ensures
        wrapped(pos, 0) == pos,
{
    vstd::arithmetic::div_mod::lemma_small_mod(pos as nat, SCALE as nat);
}

/// Advance a normalized coordinate, wrapping at the field edge rather
/// than leaving `[0, SCALE)`. The step may reach two whole units so that
/// sensor probes built from two velocity components fit through it.
pub fn wrap_add(pos: i64, delta: i64) -> (r: i64)
    requires
        0 <= pos < SCALE,
        -2 * SCALE <= delta <= 2 * SCALE,
    ensures
        r == wrapped(pos as int, delta as int),
        0 <= r < SCALE,
{
    let shifted: i64 = pos + delta + 2 * SCALE;
    assert(0 <= shifted < 5 * SCALE);
    let r = shifted % SCALE;
    proof {
        vstd::arithmetic::div_mod::lemma_mod_multiples_vanish(
            2,
            pos as int + delta as int,
            SCALE as int,
        );
        vstd::arithmetic::div_mod::lemma_mod_division_less_than_divisor(
            shifted as int,
            SCALE as int,
        );
    }
    r
}

/// `v` rescaled by the fixed-point factor `c`: `v * c / SCALE`, rounded
/// toward zero so that the executable signed division agrees with it.
pub open spec fn scaled(v: int, c: int) -> int {
    if v >= 0 {
        v * c / (SCALE as int)
    } else {
        -((-v) * c / (SCALE as int))
    }
}

/// Rescaling by a factor of at most one whole never grows a magnitude.
pub proof fn lemma_scaled_bound(v: int, c: int, b: int)
    requires
        -b <= v <= b,
        0 <= c <= SCALE,
        0 <= b,
    ensures
        -b <= scaled(v, c) <= b,
        v >= 0 ==> 0 <= scaled(v, c) <= v,
        v < 0 ==> v <= scaled(v, c) <= 0,
{
    let s = SCALE as int;
    if v >= 0 {
        assert(0 <= v * c <= v * s) by (nonlinear_arith)
            requires
                v >= 0,
                0 <= c <= s,
        ;
        vstd::arithmetic::div_mod::lemma_div_is_ordered(v * c, v * s, s);
        vstd::arithmetic::div_mod::lemma_div_pos_is_pos(v * c, s);
        vstd::arithmetic::div_mod::lemma_div_multiples_vanish(v, s);
        assert(v * s == s * v) by (nonlinear_arith);
    } else {
        let m = -v;
        assert(0 <= m * c <= m * s) by (nonlinear_arith)
            requires
                m >= 0,
                0 <= c <= s,
        ;
        vstd::arithmetic::div_mod::lemma_div_is_ordered(m * c, m * s, s);
        vstd::arithmetic::div_mod::lemma_div_pos_is_pos(m * c, s);
        vstd::arithmetic::div_mod::lemma_div_multiples_vanish(m, s);
        assert(m * s == s * m) by (nonlinear_arith);
    }
}

/// Executable form of [`scaled`].
pub fn scale_by(v: i64, c: i64) -> (r: i64)
    requires
        -2 * SCALE <= v <= 2 * SCALE,
        0 <= c <= SCALE,
    ensures
        r == scaled(v as int, c as int),
        -2 * SCALE <= r <= 2 * SCALE,
{
    proof {
        lemma_scaled_bound(v as int, c as int, 2 * SCALE as int);
    }
    if v >= 0 {
        (v * c) / SCALE
    } else {
        -(((-v) * c) / SCALE)
    }
}

/// Cell column (or row) holding a normalized coordinate, on a grid `d`
/// cells across.
pub open spec fn cell_of(p: int, d: int) -> int {
    p * d / (SCALE as int)
}

/// A torus coordinate always lands inside the grid.
pub proof fn lemma_cell_of_range(p: int, d: int)
    requires
        0 <= p < SCALE,
        0 < d,
    ensures
        0 <= cell_of(p, d) < d,
{
    let s = SCALE as int;
    assert(p * d < s * d && 0 <= p * d) by (nonlinear_arith)
        requires
            0 <= p < s,
            0 < d,
    ;
    vstd::arithmetic::div_mod::lemma_div_pos_is_pos(p * d, s);
    vstd::arithmetic::div_mod::lemma_multiply_divide_lt(p * d, d, s);
}

/// Executable form of [`cell_of`].
pub fn cell_index(p: i64, d: usize) -> (r: usize)
    requires
        0 <= p < SCALE,
        0 < d <= 30_000,
    ensures
        r == cell_of(p as int, d as int),
        r < d,
{
    proof {
        lemma_cell_of_range(p as int, d as int);
        assert(p * d <= 1_000_000 * 30_000) by (nonlinear_arith)
            requires
                0 <= p < 1_000_000,
                0 < d <= 30_000,
        ;
    }
    ((p * (d as i64)) / SCALE) as usize
}

} // verus!
