use slime_sim::input::{
    route_key, update_controls, KeyAction, KeyboardMode, KeyboardState, KEY_DOWN_A,
    KEY_MODE_DEBUG, KEY_MODE_PHEREMONES, KEY_MODE_SLIME, KEY_MODE_VIEW, KEY_PRINT, KEY_UP_A,
    KEY_UP_B,
};
use slime_sim::params::Coefficient;

#[test]
fn keyboard_state_tracks_held_keys() {
    let mut ks = KeyboardState::new();
    assert_eq!(ks.get_mode(), KeyboardMode::VIEW);
    assert!(!ks.key_pressed(KEY_UP_A));
    ks.handle_keyboard_input(KEY_UP_A, true);
    assert!(ks.key_pressed(KEY_UP_A));
    ks.handle_keyboard_input(KEY_UP_A, false);
    assert!(!ks.key_pressed(KEY_UP_A));
}

#[test]
fn clearing_keys_forgets_everything_but_the_mode() {
    let mut ks = KeyboardState::new();
    ks.set_mode(KeyboardMode::SLIME);
    ks.handle_keyboard_input(KEY_UP_A, true);
    ks.handle_keyboard_input(KEY_UP_B, true);
    ks.clear_keys();
    assert!(!ks.key_pressed(KEY_UP_A));
    assert!(!ks.key_pressed(KEY_UP_B));
    assert_eq!(ks.get_mode(), KeyboardMode::SLIME);
}

#[test]
fn mode_keys_switch_in_any_mode() {
    assert_eq!(
        route_key(KeyboardMode::VIEW, KEY_MODE_SLIME),
        KeyAction::SwitchMode(KeyboardMode::SLIME)
    );
    assert_eq!(
        route_key(KeyboardMode::DEBUG, KEY_MODE_PHEREMONES),
        KeyAction::SwitchMode(KeyboardMode::PHEREMONES)
    );
    assert_eq!(
        route_key(KeyboardMode::SLIME, KEY_MODE_VIEW),
        KeyAction::SwitchMode(KeyboardMode::VIEW)
    );
    assert_eq!(
        route_key(KeyboardMode::SLIME, KEY_MODE_DEBUG),
        KeyAction::SwitchMode(KeyboardMode::DEBUG)
    );
}

#[test]
fn slime_mode_adjusts_agent_kinetics() {
    match route_key(KeyboardMode::SLIME, KEY_UP_A) {
        KeyAction::Adjust(d) => {
            assert_eq!(d.coeff, Coefficient::MaxVelocity);
            assert!(d.increase);
        }
        other => panic!("expected an adjustment, got {:?}", describe(other)),
    }
    match route_key(KeyboardMode::SLIME, KEY_DOWN_A) {
        KeyAction::Adjust(d) => {
            assert_eq!(d.coeff, Coefficient::MaxVelocity);
            assert!(!d.increase);
        }
        other => panic!("expected an adjustment, got {:?}", describe(other)),
    }
}

fn describe(a: KeyAction) -> &'static str {
    match a {
        KeyAction::Idle => "idle",
        KeyAction::SwitchMode(_) => "mode switch",
        KeyAction::Adjust(_) => "adjust",
        KeyAction::PrintDebug => "print",
    }
}

#[test]
fn pheremone_mode_adjusts_trail_kinetics() {
    match route_key(KeyboardMode::PHEREMONES, KEY_UP_A) {
        KeyAction::Adjust(d) => assert_eq!(d.coeff, Coefficient::DepositionAmount),
        other => panic!("expected an adjustment, got {:?}", describe(other)),
    }
}

#[test]
fn view_mode_adjusts_the_view_transform() {
    match route_key(KeyboardMode::VIEW, KEY_UP_B) {
        KeyAction::Adjust(d) => assert_eq!(d.coeff, Coefficient::XShift),
        other => panic!("expected an adjustment, got {:?}", describe(other)),
    }
}

#[test]
fn debug_mode_only_prints() {
    assert_eq!(route_key(KeyboardMode::DEBUG, KEY_PRINT), KeyAction::PrintDebug);
    assert_eq!(route_key(KeyboardMode::DEBUG, KEY_UP_A), KeyAction::Idle);
    assert_eq!(route_key(KeyboardMode::VIEW, KEY_PRINT), KeyAction::Idle);
}

#[test]
fn events_route_in_arrival_order() {
    let mut p = slime_sim::params::init_params();
    let mut mode = KeyboardMode::VIEW;
    // switch to agent tuning, then bump max velocity twice
    let keys = vec![KEY_MODE_SLIME, KEY_UP_A, KEY_UP_A];
    let (changed, print) = update_controls(&mut p, &mut mode, &keys);
    assert!(changed);
    assert!(!print);
    assert_eq!(mode, KeyboardMode::SLIME);
    assert_eq!(p.slime_params.max_velocity, 3_200);
}

#[test]
fn routing_without_adjustments_reports_no_change() {
    let mut p = slime_sim::params::init_params();
    let mut mode = KeyboardMode::VIEW;
    let (changed, print) = update_controls(&mut p, &mut mode, &vec![KEY_MODE_DEBUG, KEY_PRINT]);
    assert!(!changed);
    assert!(print);
    assert_eq!(p, slime_sim::params::init_params());
}
