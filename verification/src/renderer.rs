//! Renderer interface: the per-pixel sampling computation.
//!
//! The display pass draws one full-screen quad whose fragment
//! computation samples the trail field under the view transform — pan
//! and zoom — read from the parameter store. This module is that
//! computation on one pixel: the drawing surface itself is an external
//! collaborator, and it tolerates the field being mid-update from a
//! previous frame's asynchronous debug copy, since sampling only ever
//! reads.

use vstd::prelude::*;

use crate::field::{field_wf, FieldStore, MAX_DIM};
use crate::fixed::{cell_of, lemma_cell_of_range, SCALE};
use crate::params::{view_wf, ViewParams, ZOOM_MIN};

verus! {

/// Normalized field coordinate under the view transform: the pixel's
/// normalized screen position, stretched by the zoom, panned by the
/// shift, and wrapped onto the torus.
pub open spec fn view_coord(pix: int, screen: int, zoom: int, shift: int) -> int {
    let u0 = pix * SCALE / screen;
    let u1 = u0 * SCALE / zoom;
    (u1 + shift) % (SCALE as int)
}

/// The trail intensity a pixel shows.
pub open spec fn pixel_sample(
    f: FieldStore,
    vp: ViewParams,
    px: int,
    py: int,
    screen_w: int,
    screen_h: int,
) -> int {
    let x = view_coord(px, screen_w, vp.zoom as int, vp.x_shift as int);
    let y = view_coord(py, screen_h, vp.zoom as int, vp.y_shift as int);
    f.trail@[cell_of(y, f.height as int) * f.width as int + cell_of(x, f.width as int)] as int
}

/// Executable view transform for one axis.
fn view_axis(pix: usize, screen: usize, zoom: i64, shift: i64) -> (u: i64)
    requires
        pix < screen,
        screen <= MAX_DIM,
        ZOOM_MIN <= zoom,
        -SCALE <= shift <= SCALE,
    ensures
        u == view_coord(pix as int, screen as int, zoom as int, shift as int),
        0 <= u < SCALE,
{
    proof {
        assert((pix as int) * (SCALE as int) < (screen as int) * (SCALE as int))
            by (nonlinear_arith)
            requires
                pix < screen,
                0 < SCALE as int,
        ;
        assert(0 <= (pix as int) * (SCALE as int)) by (nonlinear_arith)
            requires
                0 <= pix as int,
                0 < SCALE as int,
        ;
        assert((pix as int) * (SCALE as int) <= 30_000 * 1_000_000) by (nonlinear_arith)
            requires
                pix as int <= 30_000,
                SCALE as int == 1_000_000,
        ;
        vstd::arithmetic::div_mod::lemma_div_pos_is_pos(
            (pix as int) * (SCALE as int),
            screen as int,
        );
        vstd::arithmetic::div_mod::lemma_multiply_divide_lt(
            (pix as int) * (SCALE as int),
            screen as int,
            SCALE as int,
        );
    }
    let u0: i64 = (pix as i64) * SCALE / (screen as i64);
    proof {
        assert(0 <= u0 * SCALE <= SCALE * SCALE) by (nonlinear_arith)
            requires
                0 <= u0 <= SCALE,
                0 < SCALE,
        ;
        vstd::arithmetic::div_mod::lemma_div_pos_is_pos(u0 as int * SCALE as int, zoom as int);
        vstd::arithmetic::div_mod::lemma_div_is_ordered(
            u0 as int * SCALE as int,
            SCALE as int * SCALE as int,
            zoom as int,
        );
        vstd::arithmetic::div_mod::lemma_div_is_ordered_by_denominator(
            SCALE as int * SCALE as int,
            ZOOM_MIN as int,
            zoom as int,
        );
    }
    let u1: i64 = u0 * SCALE / zoom;
    let t: i64 = u1 + shift;
    proof {
        vstd::arithmetic::div_mod::lemma_mod_add_multiples_vanish(t as int, SCALE as int);
        vstd::arithmetic::div_mod::lemma_mod_division_less_than_divisor(
            t as int + SCALE as int,
            SCALE as int,
        );
    }
    (t + SCALE) % SCALE
}

/// Sample the trail intensity one pixel shows under the current view.
pub fn sample_pixel(
    field: &FieldStore,
    vp: &ViewParams,
    px: usize,
    py: usize,
    screen_w: usize,
    screen_h: usize,
) -> (v: i64)
    requires
        field_wf(*field),
        view_wf(*vp),
        px < screen_w,
        py < screen_h,
        screen_w <= MAX_DIM,
        screen_h <= MAX_DIM,
    ensures
        v as int == pixel_sample(*field, *vp, px as int, py as int, screen_w as int, screen_h as int),
{
    let x = view_axis(px, screen_w, vp.zoom, vp.x_shift);
    let y = view_axis(py, screen_h, vp.zoom, vp.y_shift);
    let cx = crate::fixed::cell_index(x, field.width);
    let cy = crate::fixed::cell_index(y, field.height);
    proof {
        crate::field::lemma_cell_index_in_range(
            field.width as int,
            field.height as int,
            cx as int,
            cy as int,
        );
    }
    field.trail[cy * field.width + cx]
}

} // verus!
