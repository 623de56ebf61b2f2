use slime_sim::field::{Agent, FieldStore};
use slime_sim::SCALE;

#[test]
fn allocate_zeroes_the_trail_and_rests_the_agents() {
    let f = FieldStore::allocate(6, 5, 3);
    assert_eq!(f.width, 6);
    assert_eq!(f.height, 5);
    assert_eq!(f.trail.len(), 30);
    assert!(f.trail.iter().all(|v| *v == 0));
    assert_eq!(f.agents.len(), 3);
    for a in &f.agents {
        assert_eq!(*a, Agent { pos_x: SCALE / 2, pos_y: SCALE / 2, vel_x: 0, vel_y: 0 });
    }
}

#[test]
fn trail_cells_read_back_what_was_written() {
    let mut f = FieldStore::allocate(6, 5, 0);
    f.set_trail(2, 3, 123);
    assert_eq!(f.trail_at(2, 3), 123);
    assert_eq!(f.trail_at(3, 2), 0);
    assert_eq!(f.trail[3 * 6 + 2], 123);
}

#[test]
fn agent_slots_read_back_what_was_written() {
    let mut f = FieldStore::allocate(6, 5, 2);
    let a = Agent { pos_x: 1, pos_y: 2, vel_x: 3, vel_y: 4 };
    f.set_agent(1, a);
    assert_eq!(f.agent_at(1), a);
    assert_eq!(f.agent_at(0).pos_x, SCALE / 2);
}

#[test]
fn reinitialized_agents_keep_the_trail() {
    let mut f = FieldStore::allocate(6, 5, 10);
    f.set_trail(0, 0, 9);
    f.init_agents_data();
    assert_eq!(f.trail_at(0, 0), 9);
    assert_eq!(f.agents.len(), 10);
}
