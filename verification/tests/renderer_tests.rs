use slime_sim::field::FieldStore;
use slime_sim::fixed::{cell_index, clamp, wrap_add};
use slime_sim::renderer::sample_pixel;
use slime_sim::SCALE;

fn view_identity() -> slime_sim::params::ViewParams {
    slime_sim::params::ViewParams {
        shift_modifier: 10_000,
        x_shift: 0,
        y_shift: 0,
        zoom: SCALE,
        time_modifier: SCALE,
    }
}

#[test]
fn identity_view_samples_the_matching_cell() {
    let mut f = FieldStore { width: 4, height: 4, trail: vec![0; 16], agents: vec![] };
    f.trail[3 * 4 + 2] = 77;
    let vp = view_identity();
    assert_eq!(sample_pixel(&f, &vp, 2, 3, 4, 4), 77);
    assert_eq!(sample_pixel(&f, &vp, 0, 0, 4, 4), 0);
}

#[test]
fn panning_wraps_around_the_torus() {
    let mut f = FieldStore { width: 4, height: 4, trail: vec![0; 16], agents: vec![] };
    f.trail[0] = 55;
    let mut vp = view_identity();
    // shift by one whole field: x wraps back onto the same column
    vp.x_shift = SCALE;
    assert_eq!(sample_pixel(&f, &vp, 0, 0, 4, 4), 55);
    // shift by a quarter: pixel 0 now reads column 1
    f.trail[1] = 66;
    vp.x_shift = 250_000;
    assert_eq!(sample_pixel(&f, &vp, 0, 0, 4, 4), 66);
}

#[test]
fn zooming_out_compresses_the_view() {
    let mut f = FieldStore { width: 4, height: 4, trail: vec![0; 16], agents: vec![] };
    f.trail[1] = 99;
    let mut vp = view_identity();
    // zoom of 2.0 halves the sampled coordinate: pixel 2 of 4 reads column 1
    vp.zoom = 2 * SCALE;
    assert_eq!(sample_pixel(&f, &vp, 2, 0, 4, 4), 99);
}

#[test]
fn wrap_add_wraps_at_both_edges() {
    assert_eq!(wrap_add(SCALE - 1, 3_000), 2_999);
    assert_eq!(wrap_add(0, -3_000), SCALE - 3_000);
    assert_eq!(wrap_add(500_000, 0), 500_000);
    assert_eq!(wrap_add(999_999, 1), 0);
}

#[test]
fn clamp_pins_to_the_interval() {
    assert_eq!(clamp(5, -3, 3), 3);
    assert_eq!(clamp(-5, -3, 3), -3);
    assert_eq!(clamp(2, -3, 3), 2);
}

#[test]
fn cell_index_maps_normalized_coordinates() {
    assert_eq!(cell_index(0, 8), 0);
    assert_eq!(cell_index(500_000, 8), 4);
    assert_eq!(cell_index(999_999, 8), 7);
}
