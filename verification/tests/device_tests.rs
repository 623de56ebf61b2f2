use slime_sim::device::DeviceParams;
use slime_sim::params::{Coefficient, ParamDelta};

#[test]
fn records_follow_kernel_field_order() {
    let p = slime_sim::params::init_params();
    let mut d = DeviceParams::new();
    d.sync_to_device(&p);
    assert_eq!(
        d.slime_buf,
        vec![3_000, -3_000, 2_000, -3_000, 10_000, 1_047_200, 1_000, 5]
    );
    assert_eq!(d.pheremone_buf, vec![1_000, 100_000, 985_000]);
    assert_eq!(d.view_buf, vec![10_000, 0, 0, 1_000_000, 1_000_000]);
}

#[test]
fn sync_twice_without_apply_gives_identical_records() {
    let p = slime_sim::params::init_params();
    let mut d = DeviceParams::new();
    d.sync_to_device(&p);
    let first_view = d.view_buf.clone();
    let first_slime = d.slime_buf.clone();
    let first_pheremone = d.pheremone_buf.clone();
    d.sync_to_device(&p);
    assert_eq!(d.view_buf, first_view);
    assert_eq!(d.slime_buf, first_slime);
    assert_eq!(d.pheremone_buf, first_pheremone);
}

#[test]
fn sync_after_apply_reflects_the_new_value() {
    let mut p = slime_sim::params::init_params();
    let mut d = DeviceParams::new();
    d.sync_to_device(&p);
    p.apply(ParamDelta { coeff: Coefficient::DepositionAmount, increase: true });
    d.sync_to_device(&p);
    assert_eq!(d.pheremone_buf[0], 1_100);
}

#[test]
fn group_updates_touch_only_their_buffer() {
    let p = slime_sim::params::init_params();
    let mut d = DeviceParams::new();
    d.sync_to_device(&p);
    let slime_before = d.slime_buf.clone();
    d.update_view_params_buffer(&p);
    assert_eq!(d.slime_buf, slime_before);
}
