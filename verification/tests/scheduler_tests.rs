use slime_sim::field::FoodPoint;
use slime_sim::scheduler::{
    classify_present_result, coarse_timer_check, FrameAction, Phase, PresentError, Simulation,
    FOOD_PERIOD_MS,
};

#[test]
fn fresh_simulation_is_ready_with_a_zero_field() {
    let s = Simulation::new(8, 8, 4);
    assert_eq!(s.phase, Phase::Ready);
    assert_eq!(s.field.width, 8);
    assert_eq!(s.field.height, 8);
    assert_eq!(s.field.agents.len(), 4);
    assert!(s.field.trail.iter().all(|v| *v == 0));
    assert_eq!(s.last_food_ms, 0);
}

#[test]
fn lost_surface_is_recoverable() {
    assert_eq!(
        classify_present_result(&Err(PresentError::Lost)),
        FrameAction::Reconfigure
    );
}

#[test]
fn out_of_memory_is_fatal() {
    assert_eq!(
        classify_present_result(&Err(PresentError::OutOfMemory)),
        FrameAction::Exit
    );
}

#[test]
fn transient_errors_skip_one_frame() {
    assert_eq!(
        classify_present_result(&Err(PresentError::Outdated)),
        FrameAction::SkipFrame
    );
    assert_eq!(
        classify_present_result(&Err(PresentError::Timeout)),
        FrameAction::SkipFrame
    );
    assert_eq!(
        classify_present_result(&Err(PresentError::Other)),
        FrameAction::SkipFrame
    );
}

#[test]
fn successful_present_proceeds() {
    assert_eq!(classify_present_result(&Ok(())), FrameAction::Proceed);
}

#[test]
fn present_outcome_drives_the_phase_machine() {
    let mut s = Simulation::new(8, 8, 2);
    s.step_frame(0, &vec![]);
    assert_eq!(s.phase, Phase::Rendering);
    let a = s.present_outcome(&Ok(()));
    assert_eq!(a, FrameAction::Proceed);
    assert_eq!(s.phase, Phase::Ready);
    s.step_frame(16, &vec![]);
    let a = s.present_outcome(&Err(PresentError::OutOfMemory));
    assert_eq!(a, FrameAction::Exit);
    assert_eq!(s.phase, Phase::ShuttingDown);
}

#[test]
fn close_request_shuts_down() {
    let mut s = Simulation::new(8, 8, 2);
    s.request_close();
    assert_eq!(s.phase, Phase::ShuttingDown);
}

#[test]
fn regeneration_fires_exactly_once_across_the_boundary_at_60fps() {
    let mut s = Simulation::new(8, 8, 2);
    let food = vec![FoodPoint { cell_x: 1, cell_y: 1 }];
    let perts = vec![(0, 0); 2];
    let mut triggers = 0;
    let mut now: u64 = 9_500;
    while now <= 10_500 {
        let before = s.last_food_ms;
        s.step_frame_with(now, &vec![], &food, &perts);
        if s.last_food_ms != before {
            triggers += 1;
        }
        s.present_outcome(&Ok(()));
        now += 16;
    }
    assert_eq!(triggers, 1, "boundary crossing must regenerate exactly once");
    assert_eq!(s.last_food_ms, 10_012);
    assert_eq!(FOOD_PERIOD_MS, 10_000);
}

#[test]
fn coarse_whole_second_check_matches_its_formula() {
    assert!(coarse_timer_check(0, 10));
    assert!(coarse_timer_check(10, 10));
    assert!(coarse_timer_check(20, 10));
    assert!(!coarse_timer_check(15, 10));
    assert!(!coarse_timer_check(9, 10));
}

#[test]
fn frames_are_reproducible_given_the_same_inputs() {
    let mut s1 = Simulation::new(8, 8, 4);
    let mut s2 = Simulation::new(8, 8, 4);
    s1.field.trail[10] = 400_000;
    s2.field.trail[10] = 400_000;
    let food = vec![FoodPoint { cell_x: 2, cell_y: 3 }];
    let perts = vec![(5, -5), (-3, 2), (1, 1), (0, -2)];
    let keys = vec![slime_sim::input::KEY_MODE_SLIME, slime_sim::input::KEY_UP_A];
    for frame in 0..3u64 {
        s1.step_frame_with(frame * 16, &keys, &food, &perts);
        s1.present_outcome(&Ok(()));
        s2.step_frame_with(frame * 16, &keys, &food, &perts);
        s2.present_outcome(&Ok(()));
    }
    assert_eq!(s1.field.trail, s2.field.trail);
    assert_eq!(s1.field.agents, s2.field.agents);
    assert_eq!(s1.params, s2.params);
    assert_eq!(s1.controls.mode, s2.controls.mode);
    assert_eq!(s1.device.slime_buf, s2.device.slime_buf);
}

#[test]
fn parameter_changes_apply_from_the_next_frame_on() {
    // Raising max_velocity mid-frame must not affect the frame in flight:
    // the kernels read the device record, which is synced after routing.
    let mut s = Simulation::new(8, 8, 1);
    let keys = vec![slime_sim::input::KEY_MODE_SLIME, slime_sim::input::KEY_UP_A];
    let before = s.device.slime_buf.clone();
    s.step_frame_with(0, &keys, &vec![], &vec![(0, 0)]);
    // the store changed, and the device now carries the new record
    assert_eq!(s.params.slime_params.max_velocity, 3_100);
    assert_eq!(s.device.slime_buf[0], 3_100);
    assert_eq!(before[0], 3_000);
}

#[test]
fn debug_copy_mirrors_the_agent_grid() {
    let mut s = Simulation::new(8, 8, 3);
    s.init_slime();
    s.step_frame_with(0, &vec![], &vec![], &vec![(0, 0); 3]);
    assert_eq!(s.scratch_agents, s.field.agents);
}

#[test]
fn debug_print_is_requested_from_debug_mode() {
    let mut s = Simulation::new(8, 8, 1);
    let keys = vec![slime_sim::input::KEY_MODE_DEBUG, slime_sim::input::KEY_PRINT];
    s.step_frame_with(0, &keys, &vec![], &vec![(0, 0)]);
    assert!(s.debug_requested);
    s.present_outcome(&Ok(()));
    s.step_frame_with(16, &vec![], &vec![], &vec![(0, 0)]);
    assert!(!s.debug_requested);
}

#[test]
fn init_slime_lays_agents_on_the_five_point_cycle() {
    let mut s = Simulation::new(8, 8, 7);
    s.init_slime();
    let expect = [
        (890_000, 730_000),
        (180_000, 860_000),
        (540_000, 470_000),
        (730_000, 170_000),
        (270_000, 330_000),
    ];
    for (i, a) in s.field.agents.iter().enumerate() {
        let (px, py) = expect[i % 5];
        assert_eq!((a.pos_x, a.pos_y), (px, py));
        assert!(a.vel_x >= -2_000 && a.vel_x <= 2_000);
        assert!(a.vel_y >= -4_000 && a.vel_y <= 4_000);
    }
}
