//! Sums over index ranges and over toroidal grids.
//!
//! The trail field is a dense `width x height` grid stored row-major and
//! treated as a torus. The conservation argument for the trail kernel
//! needs one fact about that layout: summing a quantity over every cell's
//! *neighbour* gives the same total as summing it over every cell,
//! because each torus shift merely permutes the cells. This module proves
//! that, together with the linearity and monotonicity facts the kernel
//! bound rests on.

use vstd::prelude::*;

use vstd::arithmetic::div_mod::{
    lemma_fundamental_div_mod_converse,
    lemma_mod_self_0,
    lemma_small_mod,
};

verus! {

/// Sum of `f(i)` over the half-open range `a <= i < b`.
pub open spec fn sum_range(a: int, b: int, f: spec_fn(int) -> int) -> int
    decreases b - a,
{
    if b <= a {
        0
    } else {
        sum_range(a, b - 1, f) + f(b - 1)
    }
}

/// A range sum splits at any point inside the range.
pub proof fn lemma_sum_range_split(a: int, m: int, b: int, f: spec_fn(int) -> int)
    requires
        a <= m <= b,
    ensures
        sum_range(a, b, f) == sum_range(a, m, f) + sum_range(m, b, f),
    decreases b - m,
{
    if m < b {
        lemma_sum_range_split(a, m, b - 1, f);
    }
}

/// Shifting the range and the summand together leaves the sum unchanged.
pub proof fn lemma_sum_range_shift(
    a: int,
    b: int,
    k: int,
    f: spec_fn(int) -> int,
    g: spec_fn(int) -> int,
)
    requires
        forall|i: int| a <= i < b ==> #[trigger] g(i) == f(i + k),
    ensures
        sum_range(a, b, g) == sum_range(a + k, b + k, f),
    decreases b - a,
{
    if a < b {
        lemma_sum_range_shift(a, b - 1, k, f, g);
    }
}

/// Pointwise equal summands give the same sum.
pub proof fn lemma_sum_range_eq(a: int, b: int, f: spec_fn(int) -> int, g: spec_fn(int) -> int)
    requires
        forall|i: int| a <= i < b ==> #[trigger] f(i) == #[trigger] g(i),
    ensures
        sum_range(a, b, f) == sum_range(a, b, g),
    decreases b - a,
{
    if a < b {
        lemma_sum_range_eq(a, b - 1, f, g);
    }
}

/// Pointwise smaller summands give a smaller sum.
pub proof fn lemma_sum_range_le(a: int, b: int, f: spec_fn(int) -> int, g: spec_fn(int) -> int)
    requires
        forall|i: int| a <= i < b ==> #[trigger] f(i) <= #[trigger] g(i),
    ensures
        sum_range(a, b, f) <= sum_range(a, b, g),
    decreases b - a,
{
    if a < b {
        lemma_sum_range_le(a, b - 1, f, g);
    }
}

/// Summing a pointwise linear combination gives the linear combination of
/// the sums.
pub proof fn lemma_sum_range_linear(
    a: int,
    b: int,
    cf: int,
    cg: int,
    f: spec_fn(int) -> int,
    g: spec_fn(int) -> int,
    h: spec_fn(int) -> int,
)
    requires
        forall|i: int| a <= i < b ==> #[trigger] h(i) == cf * f(i) + cg * g(i),
    ensures
        sum_range(a, b, h) == cf * sum_range(a, b, f) + cg * sum_range(a, b, g),
    decreases b - a,
{
    if a < b {
        lemma_sum_range_linear(a, b - 1, cf, cg, f, g, h);
        assert(cf * sum_range(a, b, f) == cf * sum_range(a, b - 1, f) + cf * f(b - 1))
            by (nonlinear_arith)
            requires
                sum_range(a, b, f) == sum_range(a, b - 1, f) + f(b - 1),
        ;
        assert(cg * sum_range(a, b, g) == cg * sum_range(a, b - 1, g) + cg * g(b - 1))
            by (nonlinear_arith)
            requires
                sum_range(a, b, g) == sum_range(a, b - 1, g) + g(b - 1),
        ;
    }
}

/// Reading the cells one step around the cycle `0..n` sums to the same
/// total: `g(i) == f((i + 1) % n)` merely permutes the summands.
pub proof fn lemma_sum_rotate_fwd(n: int, f: spec_fn(int) -> int, g: spec_fn(int) -> int)
    requires
        n > 0,
        forall|i: int| 0 <= i < n ==> #[trigger] g(i) == f((i + 1) % n),
    ensures
        sum_range(0, n, g) == sum_range(0, n, f),
{
    assert forall|i: int| 0 <= i < n - 1 implies #[trigger] g(i) == f(i + 1) by {
        lemma_small_mod((i + 1) as nat, n as nat);
    }
    lemma_sum_range_shift(0, n - 1, 1, f, g);
    assert(g(n - 1) == f(0)) by {
        lemma_mod_self_0(n);
    }
    assert(sum_range(0, n, g) == sum_range(0, n - 1, g) + g(n - 1));
    assert(sum_range(0, n, f) == sum_range(0, 1, f) + sum_range(1, n, f)) by {
        lemma_sum_range_split(0, 1, n, f);
    }
    assert(sum_range(0, 0, f) == 0);
    assert(sum_range(0, 1, f) == f(0));
}

/// The inverse rotation: `g(i) == f((i + n - 1) % n)` also permutes the
/// summands of the cycle `0..n`.
pub proof fn lemma_sum_rotate_back(n: int, f: spec_fn(int) -> int, g: spec_fn(int) -> int)
    requires
        n > 0,
        forall|i: int| 0 <= i < n ==> #[trigger] g(i) == f((i + n - 1) % n),
    ensures
        sum_range(0, n, g) == sum_range(0, n, f),
{
    assert forall|i: int| 1 <= i < n implies #[trigger] g(i) == f(i - 1) by {
        vstd::arithmetic::div_mod::lemma_mod_add_multiples_vanish(i - 1, n);
        lemma_small_mod((i - 1) as nat, n as nat);
    }
    assert(g(0) == f(n - 1)) by {
        lemma_small_mod((n - 1) as nat, n as nat);
    }
    lemma_sum_range_shift(1, n, -1, f, g);
    assert(sum_range(1, n, g) == sum_range(0, n - 1, f));
    assert(sum_range(0, n, g) == sum_range(0, 1, g) + sum_range(1, n, g)) by {
        lemma_sum_range_split(0, 1, n, g);
    }
    assert(sum_range(0, 0, g) == 0);
    assert(sum_range(0, 1, g) == g(0));
    assert(sum_range(0, n, f) == sum_range(0, n - 1, f) + f(n - 1));
}

/// Sum of one row of a row-major grid quantity.
pub open spec fn row_sum(f: spec_fn(int) -> int, w: int, r: int) -> int {
    sum_range(0, w, |c: int| f(r * w + c))
}

/// A row-major grid sum is the sum of its row sums.
pub proof fn lemma_sum_rows(w: int, h: int, f: spec_fn(int) -> int)
    requires
        w >= 0,
        h >= 0,
    ensures
        sum_range(0, w * h, f) == sum_range(0, h, |r: int| row_sum(f, w, r)),
    decreases h,
{
    let rows = |r: int| row_sum(f, w, r);
    if h == 0 {
        assert(w * h == 0) by (nonlinear_arith)
            requires
                h == 0,
        ;
    } else {
        lemma_sum_rows(w, h - 1, f);
        assert(w * (h - 1) == w * h - w) by (nonlinear_arith);
        assert(0 <= w * (h - 1) <= w * h) by (nonlinear_arith)
            requires
                w >= 0,
                h >= 1,
        ;
        lemma_sum_range_split(0, w * (h - 1), w * h, f);
        let inner = |c: int| f((h - 1) * w + c);
        assert forall|i: int| 0 <= i < w implies #[trigger] inner(i) == f(i + w * (h - 1)) by {
            assert((h - 1) * w == w * (h - 1)) by (nonlinear_arith);
        }
        lemma_sum_range_shift(0, w, w * (h - 1), f, inner);
        assert(sum_range(w * (h - 1), w * h, f) == row_sum(f, w, h - 1));
        assert(sum_range(0, h, rows) == sum_range(0, h - 1, rows) + rows(h - 1));
    }
}

/// Row and column of a row-major index.
pub open spec fn col_of(i: int, w: int) -> int {
    i % w
}

pub open spec fn row_of(i: int, w: int) -> int {
    i / w
}

/// Index of the cell one step to the right, wrapping inside the row.
pub open spec fn right_of(i: int, w: int) -> int {
    row_of(i, w) * w + (col_of(i, w) + 1) % w
}

/// Index of the cell one step to the left, wrapping inside the row.
pub open spec fn left_of(i: int, w: int) -> int {
    row_of(i, w) * w + (col_of(i, w) + w - 1) % w
}

/// Index of the cell one row down, wrapping to the top row.
pub open spec fn down_of(i: int, w: int, h: int) -> int {
    ((row_of(i, w) + 1) % h) * w + col_of(i, w)
}

/// Index of the cell one row up, wrapping to the bottom row.
pub open spec fn up_of(i: int, w: int, h: int) -> int {
    ((row_of(i, w) + h - 1) % h) * w + col_of(i, w)
}

/// For a cell given by row and column, division recovers the row and
/// remainder the column.
pub proof fn lemma_grid_index(r: int, c: int, w: int)
    requires
        w > 0,
        0 <= r,
        0 <= c < w,
    ensures
        row_of(r * w + c, w) == r,
        col_of(r * w + c, w) == c,
{
    lemma_fundamental_div_mod_converse(r * w + c, w, r, c);
}

/// Summing a quantity over every cell's right neighbour gives the grid
/// total: the shift is a permutation of the torus.
pub proof fn lemma_sum_shift_right(w: int, h: int, f: spec_fn(int) -> int, g: spec_fn(int) -> int)
    requires
        w > 0,
        h > 0,
        forall|i: int| 0 <= i < w * h ==> #[trigger] g(i) == f(right_of(i, w)),
    ensures
        sum_range(0, w * h, g) == sum_range(0, w * h, f),
{
    lemma_sum_rows(w, h, f);
    lemma_sum_rows(w, h, g);
    assert forall|r: int| 0 <= r < h implies #[trigger] row_sum(g, w, r) == row_sum(f, w, r) by {
        let gin = |c: int| g(r * w + c);
        let fin = |c: int| f(r * w + c);
        assert forall|c: int| 0 <= c < w implies #[trigger] gin(c) == fin((c + 1) % w) by {
            assert(0 <= r * w + c < w * h) by (nonlinear_arith)
                requires
                    0 <= r < h,
                    0 <= c < w,
            ;
            lemma_grid_index(r, c, w);
            assert(g(r * w + c) == f(right_of(r * w + c, w)));
        }
        lemma_sum_rotate_fwd(w, fin, gin);
    }
    lemma_sum_range_eq(0, h, |r: int| row_sum(g, w, r), |r: int| row_sum(f, w, r));
}

/// Summing over every cell's left neighbour gives the grid total.
pub proof fn lemma_sum_shift_left(w: int, h: int, f: spec_fn(int) -> int, g: spec_fn(int) -> int)
    requires
        w > 0,
        h > 0,
        forall|i: int| 0 <= i < w * h ==> #[trigger] g(i) == f(left_of(i, w)),
    ensures
        sum_range(0, w * h, g) == sum_range(0, w * h, f),
{
    lemma_sum_rows(w, h, f);
    lemma_sum_rows(w, h, g);
    assert forall|r: int| 0 <= r < h implies #[trigger] row_sum(g, w, r) == row_sum(f, w, r) by {
        let gin = |c: int| g(r * w + c);
        let fin = |c: int| f(r * w + c);
        assert forall|c: int| 0 <= c < w implies #[trigger] gin(c) == fin((c + w - 1) % w) by {
            assert(0 <= r * w + c < w * h) by (nonlinear_arith)
                requires
                    0 <= r < h,
                    0 <= c < w,
            ;
            lemma_grid_index(r, c, w);
            assert(g(r * w + c) == f(left_of(r * w + c, w)));
        }
        lemma_sum_rotate_back(w, fin, gin);
    }
    lemma_sum_range_eq(0, h, |r: int| row_sum(g, w, r), |r: int| row_sum(f, w, r));
}

/// Summing over every cell's downward neighbour gives the grid total.
pub proof fn lemma_sum_shift_down(w: int, h: int, f: spec_fn(int) -> int, g: spec_fn(int) -> int)
    requires
        w > 0,
        h > 0,
        forall|i: int| 0 <= i < w * h ==> #[trigger] g(i) == f(down_of(i, w, h)),
    ensures
        sum_range(0, w * h, g) == sum_range(0, w * h, f),
{
    lemma_sum_rows(w, h, f);
    lemma_sum_rows(w, h, g);
    let frows = |r: int| row_sum(f, w, r);
    let grows = |r: int| row_sum(g, w, r);
    assert forall|r: int| 0 <= r < h implies #[trigger] grows(r) == frows((r + 1) % h) by {
        let r2 = (r + 1) % h;
        vstd::arithmetic::div_mod::lemma_mod_division_less_than_divisor(r + 1, h);
        let gin = |c: int| g(r * w + c);
        let fin = |c: int| f(r2 * w + c);
        assert forall|c: int| 0 <= c < w implies #[trigger] gin(c) == fin(c) by {
            assert(0 <= r * w + c < w * h) by (nonlinear_arith)
                requires
                    0 <= r < h,
                    0 <= c < w,
            ;
            lemma_grid_index(r, c, w);
            assert(g(r * w + c) == f(down_of(r * w + c, w, h)));
        }
        lemma_sum_range_eq(0, w, gin, fin);
    }
    lemma_sum_rotate_fwd(h, frows, grows);
}

/// Summing over every cell's upward neighbour gives the grid total.
pub proof fn lemma_sum_shift_up(w: int, h: int, f: spec_fn(int) -> int, g: spec_fn(int) -> int)
    requires
        w > 0,
        h > 0,
        forall|i: int| 0 <= i < w * h ==> #[trigger] g(i) == f(up_of(i, w, h)),
    ensures
        sum_range(0, w * h, g) == sum_range(0, w * h, f),
{
    lemma_sum_rows(w, h, f);
    lemma_sum_rows(w, h, g);
    let frows = |r: int| row_sum(f, w, r);
    let grows = |r: int| row_sum(g, w, r);
    assert forall|r: int| 0 <= r < h implies #[trigger] grows(r) == frows((r + h - 1) % h) by {
        let r2 = (r + h - 1) % h;
        vstd::arithmetic::div_mod::lemma_mod_division_less_than_divisor(r + h - 1, h);
        let gin = |c: int| g(r * w + c);
        let fin = |c: int| f(r2 * w + c);
        assert forall|c: int| 0 <= c < w implies #[trigger] gin(c) == fin(c) by {
            assert(0 <= r * w + c < w * h) by (nonlinear_arith)
                requires
                    0 <= r < h,
                    0 <= c < w,
            ;
            lemma_grid_index(r, c, w);
            assert(g(r * w + c) == f(up_of(r * w + c, w, h)));
        }
        lemma_sum_range_eq(0, w, gin, fin);
    }
    lemma_sum_rotate_back(h, frows, grows);
}

} // verus!
