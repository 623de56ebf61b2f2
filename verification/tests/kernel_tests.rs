use slime_sim::field::{Agent, FieldStore, FoodPoint};
use slime_sim::kernels::{
    generate_food_coords, initial_food_coords, update_agent_position, update_food,
    update_pheremone_trails,
};
use slime_sim::params::{PheremoneParams, SlimeParams};
use slime_sim::SCALE;

fn test_slime_params() -> SlimeParams {
    SlimeParams {
        max_velocity: 3_000,
        min_velocity: -3_000,
        turn_factor: 2_000,
        avoid_factor: -3_000,
        sensor_dist: 10_000,
        sensor_offset: 1_047_200,
        sensor_radius: 1_000,
        brownian_offset: 5,
    }
}

fn test_pheremone_params() -> PheremoneParams {
    PheremoneParams {
        deposition_amount: 1_000,
        diffusion_factor: 100_000,
        decay_factor: 985_000,
    }
}

fn small_field(agents: Vec<Agent>) -> FieldStore {
    FieldStore { width: 8, height: 8, trail: vec![0; 64], agents }
}

#[test]
fn agent_at_right_edge_wraps_to_left_edge() {
    let a = Agent { pos_x: SCALE - 1, pos_y: 500_000, vel_x: 3_000, vel_y: 0 };
    let mut f = small_field(vec![a]);
    update_agent_position(&mut f, &test_slime_params(), 1_000, &vec![(0, 0)]);
    assert_eq!(f.agents[0].pos_x, 2_999);
    assert!(f.agents[0].pos_x >= 0 && f.agents[0].pos_x < SCALE);
}

#[test]
fn agent_at_zero_wraps_to_far_edge() {
    let a = Agent { pos_x: 0, pos_y: 500_000, vel_x: -3_000, vel_y: 0 };
    let mut f = small_field(vec![a]);
    update_agent_position(&mut f, &test_slime_params(), 1_000, &vec![(0, 0)]);
    assert_eq!(f.agents[0].pos_x, SCALE - 3_000);
}

#[test]
fn still_agents_on_flat_field_do_not_move() {
    let rest = Agent { pos_x: 500_000, pos_y: 500_000, vel_x: 0, vel_y: 0 };
    let mut f = small_field(vec![rest; 4]);
    let sp = test_slime_params();
    let perts = vec![(5, -5), (-3, 2), (0, 0), (5, 5)];
    update_agent_position(&mut f, &sp, 1_000, &perts);
    for (i, a) in f.agents.iter().enumerate() {
        assert_eq!(a.pos_x, 500_000, "agent {} moved in x", i);
        assert_eq!(a.pos_y, 500_000, "agent {} moved in y", i);
        assert!(a.vel_x >= sp.min_velocity && a.vel_x <= sp.max_velocity);
        assert!(a.vel_y >= sp.min_velocity && a.vel_y <= sp.max_velocity);
    }
    assert_eq!(f.agents[0].vel_x, 5);
    assert_eq!(f.agents[0].vel_y, -5);
}

#[test]
fn movement_deposits_at_the_new_cell() {
    let a = Agent { pos_x: 500_000, pos_y: 500_000, vel_x: 0, vel_y: 0 };
    let mut f = small_field(vec![a]);
    update_agent_position(&mut f, &test_slime_params(), 1_000, &vec![(0, 0)]);
    // centre of an 8x8 grid: cell (4, 4)
    assert_eq!(f.trail[4 * 8 + 4], 1_000);
    let total: i64 = f.trail.iter().sum();
    assert_eq!(total, 1_000);
}

#[test]
fn hot_cell_decays_by_the_decay_fraction() {
    let mut f = FieldStore { width: 4, height: 4, trail: vec![0; 16], agents: vec![] };
    f.trail[1 * 4 + 1] = 1_000_000;
    update_pheremone_trails(&mut f, &test_pheremone_params());
    // hot cell: neighbours are empty, so blend keeps (1 - diffusion) of it,
    // then decay keeps 0.985 of that: 1_000_000 * 0.9 * 0.985
    assert_eq!(f.trail[1 * 4 + 1], 886_500);
    // a side neighbour gains a bounded diffused share:
    // avg = 250_000, blend = 25_000, decayed = 24_625
    assert_eq!(f.trail[1 * 4 + 2], 24_625);
}

#[test]
fn trail_step_reads_the_previous_frame() {
    // two adjacent hot cells: each one's update must blend against the
    // other's value from before the pass, not its freshly decayed value
    let mut f = FieldStore { width: 4, height: 4, trail: vec![0; 16], agents: vec![] };
    f.trail[5] = 1_000_000;
    f.trail[6] = 1_000_000;
    update_pheremone_trails(&mut f, &test_pheremone_params());
    // blend = 0.9 * 1_000_000 + 0.1 * (1_000_000 / 4), then 0.985 decay
    assert_eq!(f.trail[5], 911_125);
    assert_eq!(f.trail[6], 911_125);
}

#[test]
fn trail_step_never_increases_total_intensity() {
    let mut f = FieldStore { width: 4, height: 4, trail: vec![0; 16], agents: vec![] };
    f.trail[5] = 1_000_000;
    f.trail[10] = 300_000;
    let before: i64 = f.trail.iter().sum();
    update_pheremone_trails(&mut f, &test_pheremone_params());
    let after: i64 = f.trail.iter().sum();
    assert!(after <= before, "total intensity grew from {} to {}", before, after);
    for v in &f.trail {
        assert!(*v >= 0);
    }
}

#[test]
fn food_stamp_overwrites_rather_than_blends() {
    let mut f = FieldStore { width: 4, height: 4, trail: vec![7; 16], agents: vec![] };
    update_food(&mut f, &vec![FoodPoint { cell_x: 1, cell_y: 2 }], 500);
    assert_eq!(f.trail[2 * 4 + 1], 500);
    // every other cell untouched
    for (i, v) in f.trail.iter().enumerate() {
        if i != 2 * 4 + 1 {
            assert_eq!(*v, 7);
        }
    }
}

#[test]
fn food_stamp_skips_out_of_range_points() {
    let mut f = FieldStore { width: 4, height: 4, trail: vec![7; 16], agents: vec![] };
    update_food(
        &mut f,
        &vec![FoodPoint { cell_x: 4, cell_y: 0 }, FoodPoint { cell_x: 0, cell_y: 4 }],
        500,
    );
    assert_eq!(f.trail, vec![7; 16]);
}

#[test]
fn initial_food_coords_are_fixed_fractions() {
    let pts = initial_food_coords(1376, 768);
    assert_eq!(pts.len(), 4);
    assert_eq!((pts[0].cell_x, pts[0].cell_y), (458, 192));
    assert_eq!((pts[1].cell_x, pts[1].cell_y), (550, 576));
    assert_eq!((pts[2].cell_x, pts[2].cell_y), (688, 512));
    assert_eq!((pts[3].cell_x, pts[3].cell_y), (588, 138));
}

#[test]
fn generated_food_coords_stay_in_range() {
    for _ in 0..20 {
        let pts = generate_food_coords(1376, 768);
        assert_eq!(pts.len(), 3);
        for p in &pts {
            assert!(p.cell_x <= 1376);
            assert!(p.cell_y <= 768);
        }
    }
}

#[test]
fn deposit_saturates_at_the_cell_ceiling() {
    let a = Agent { pos_x: 500_000, pos_y: 500_000, vel_x: 0, vel_y: 0 };
    let mut f = small_field(vec![a]);
    f.trail[4 * 8 + 4] = 1_000_000_000_000;
    update_agent_position(&mut f, &test_slime_params(), 1_000, &vec![(0, 0)]);
    assert_eq!(f.trail[4 * 8 + 4], 1_000_000_000_000);
}
