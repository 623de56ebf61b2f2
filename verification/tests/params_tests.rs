use slime_sim::params::{Coefficient, ParamDelta, Params};
use slime_sim::SCALE;

fn apply_n(p: &mut Params, coeff: Coefficient, increase: bool, n: usize) {
    for _ in 0..n {
        p.apply(ParamDelta { coeff, increase });
    }
}

#[test]
fn default_values_match_startup_record() {
    let p = slime_sim::params::init_params();
    assert_eq!(p.slime_params.max_velocity, 3_000);
    assert_eq!(p.slime_params.min_velocity, -3_000);
    assert_eq!(p.slime_params.turn_factor, 2_000);
    assert_eq!(p.slime_params.avoid_factor, -3_000);
    assert_eq!(p.slime_params.sensor_dist, 10_000);
    assert_eq!(p.slime_params.sensor_offset, 1_047_200);
    assert_eq!(p.slime_params.sensor_radius, 1_000);
    assert_eq!(p.slime_params.brownian_offset, 5);
    assert_eq!(p.pheremone_params.deposition_amount, 1_000);
    assert_eq!(p.pheremone_params.diffusion_factor, 100_000);
    assert_eq!(p.pheremone_params.decay_factor, 985_000);
    assert_eq!(p.view_params.zoom, SCALE);
}

#[test]
fn decay_factor_stays_below_one_however_often_raised() {
    let mut p = slime_sim::params::init_params();
    apply_n(&mut p, Coefficient::DecayFactor, true, 200);
    assert_eq!(p.pheremone_params.decay_factor, SCALE - 1);
    assert!(p.pheremone_params.decay_factor < SCALE);
}

#[test]
fn min_velocity_never_goes_positive() {
    let mut p = slime_sim::params::init_params();
    apply_n(&mut p, Coefficient::MinVelocity, true, 500);
    assert_eq!(p.slime_params.min_velocity, 0);
    apply_n(&mut p, Coefficient::MinVelocity, false, 20_000);
    assert_eq!(p.slime_params.min_velocity, -SCALE);
}

#[test]
fn deposition_amount_never_goes_negative() {
    let mut p = slime_sim::params::init_params();
    apply_n(&mut p, Coefficient::DepositionAmount, false, 50);
    assert_eq!(p.pheremone_params.deposition_amount, 0);
}

#[test]
fn one_step_moves_one_coefficient_only() {
    let mut p = slime_sim::params::init_params();
    let before = p;
    p.apply(ParamDelta { coeff: Coefficient::MaxVelocity, increase: true });
    assert_eq!(p.slime_params.max_velocity, before.slime_params.max_velocity + 100);
    assert_eq!(p.slime_params.min_velocity, before.slime_params.min_velocity);
    assert_eq!(p.pheremone_params, before.pheremone_params);
    assert_eq!(p.view_params, before.view_params);
}

#[test]
fn read_coeff_reads_the_store() {
    let p = slime_sim::params::init_params();
    assert_eq!(p.read_coeff(Coefficient::TurnFactor), 2_000);
    assert_eq!(p.read_coeff(Coefficient::Zoom), SCALE);
}

#[test]
fn zoom_has_a_positive_floor() {
    let mut p = slime_sim::params::init_params();
    apply_n(&mut p, Coefficient::Zoom, false, 200);
    assert_eq!(p.view_params.zoom, 1_000);
    assert!(p.view_params.zoom > 0);
}
