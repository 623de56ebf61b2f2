//! Input routing: the keyboard mode machine and key-to-parameter
//! dispatch.
//!
//! Only one mode is active at a time; a mode switch is itself a
//! keypress. Within a mode, each bound key nudges one coefficient up or
//! down by its step, clamped to its domain by the parameter store. Key
//! events are routed strictly in the order they arrived, so the frame's
//! outcome is a pure function of the event list.

use vstd::prelude::*;

use std::collections::HashSet;

use crate::params::{apply_spec, params_wf, Coefficient, ParamDelta, Params};

verus! {

broadcast use vstd::std_specs::hash::group_hash_axioms;

/// Which coefficient group the keyboard currently addresses.
#[allow(non_camel_case_types)]
#[derive(Clone, Copy, Debug, PartialEq, Eq, Structural)]
pub enum KeyboardMode {
    DEBUG,
    SLIME,
    PHEREMONES,
    VIEW,
}

/// Currently held keys plus the active mode.
pub struct KeyboardState {
    pub keys: HashSet<u32>,
    pub mode: KeyboardMode,
}

impl KeyboardState {
    /// Fresh state: no keys held, view mode active.
    pub fn new() -> (s: KeyboardState)
        ensures
            s.keys@ == Set::<u32>::empty(),
            s.mode == KeyboardMode::VIEW,
    {
        KeyboardState { keys: HashSet::new(), mode: KeyboardMode::VIEW }
    }

    /// Is a key currently held?
    pub fn key_pressed(&self, key: u32) -> (r: bool)
        ensures
            r == self.keys@.contains(key),
    {
        self.keys.contains(&key)
    }

    /// Record one key transition: a press holds the key, a release
    /// drops it.
    pub fn handle_keyboard_input(&mut self, key: u32, pressed: bool)
        ensures
            final(self).mode == old(self).mode,
            pressed ==> final(self).keys@ == old(self).keys@.insert(key),
            !pressed ==> final(self).keys@ == old(self).keys@.remove(key),
    {
        if pressed {
            self.keys.insert(key);
        } else {
            self.keys.remove(&key);
        }
    }

    /// Forget every held key, as on a window focus change.
    pub fn clear_keys(&mut self)
        ensures
            final(self).keys@ == Set::<u32>::empty(),
            final(self).mode == old(self).mode,
    {
        self.keys.clear();
    }

    /// The active mode.
    pub fn get_mode(&self) -> (m: KeyboardMode)
        ensures
            m == self.mode,
    {
        self.mode
    }

    /// Switch the active mode.
    pub fn set_mode(&mut self, new_mode: KeyboardMode)
        ensures
            final(self).mode == new_mode,
            final(self).keys@ == old(self).keys@,
    {
        self.mode = new_mode;
    }
}

/// What one key event asks of the scheduler.
#[derive(Clone, Copy, Debug, PartialEq, Eq, Structural)]
pub enum KeyAction {
    Idle,
    SwitchMode(KeyboardMode),
    Adjust(ParamDelta),
    PrintDebug,
}

pub const KEY_MODE_VIEW: u32 = 49;

pub const KEY_MODE_SLIME: u32 = 50;

pub const KEY_MODE_PHEREMONES: u32 = 51;

pub const KEY_MODE_DEBUG: u32 = 52;

pub const KEY_UP_A: u32 = 81;

pub const KEY_DOWN_A: u32 = 65;

pub const KEY_UP_B: u32 = 87;

pub const KEY_DOWN_B: u32 = 83;

pub const KEY_UP_C: u32 = 69;

pub const KEY_DOWN_C: u32 = 68;

pub const KEY_UP_D: u32 = 82;

pub const KEY_DOWN_D: u32 = 70;

pub const KEY_UP_E: u32 = 84;

pub const KEY_DOWN_E: u32 = 71;

pub const KEY_UP_F: u32 = 89;

pub const KEY_DOWN_F: u32 = 72;

pub const KEY_UP_G: u32 = 85;

pub const KEY_DOWN_G: u32 = 74;

pub const KEY_UP_H: u32 = 73;

pub const KEY_DOWN_H: u32 = 75;

pub const KEY_PRINT: u32 = 80;

/// The coefficient a slot addresses in agent-tuning mode.
pub open spec fn slime_slot(slot: int) -> Coefficient {
    if slot == 0 {
        Coefficient::MaxVelocity
    } else if slot == 1 {
        Coefficient::MinVelocity
    } else if slot == 2 {
        Coefficient::TurnFactor
    } else if slot == 3 {
        Coefficient::AvoidFactor
    } else if slot == 4 {
        Coefficient::SensorDist
    } else if slot == 5 {
        Coefficient::SensorOffset
    } else if slot == 6 {
        Coefficient::SensorRadius
    } else {
        Coefficient::BrownianOffset
    }
}

/// The coefficient a slot addresses in trail-tuning mode.
pub open spec fn pheremone_slot(slot: int) -> Coefficient {
    if slot == 0 {
        Coefficient::DepositionAmount
    } else if slot == 1 {
        Coefficient::DiffusionFactor
    } else {
        Coefficient::DecayFactor
    }
}

/// The coefficient a slot addresses in view mode.
pub open spec fn view_slot(slot: int) -> Coefficient {
    if slot == 0 {
        Coefficient::ShiftModifier
    } else if slot == 1 {
        Coefficient::XShift
    } else if slot == 2 {
        Coefficient::YShift
    } else if slot == 3 {
        Coefficient::Zoom
    } else {
        Coefficient::TimeModifier
    }
}

/// Which adjustment slot a key addresses, and in which direction, if
/// any: slot keys come in up/down pairs.
pub open spec fn key_slot(key: u32) -> Option<(int, bool)> {
    if key == KEY_UP_A {
        Some((0, true))
    } else if key == KEY_DOWN_A {
        Some((0, false))
    } else if key == KEY_UP_B {
        Some((1, true))
    } else if key == KEY_DOWN_B {
        Some((1, false))
    } else if key == KEY_UP_C {
        Some((2, true))
    } else if key == KEY_DOWN_C {
        Some((2, false))
    } else if key == KEY_UP_D {
        Some((3, true))
    } else if key == KEY_DOWN_D {
        Some((3, false))
    } else if key == KEY_UP_E {
        Some((4, true))
    } else if key == KEY_DOWN_E {
        Some((4, false))
    } else if key == KEY_UP_F {
        Some((5, true))
    } else if key == KEY_DOWN_F {
        Some((5, false))
    } else if key == KEY_UP_G {
        Some((6, true))
    } else if key == KEY_DOWN_G {
        Some((6, false))
    } else if key == KEY_UP_H {
        Some((7, true))
    } else if key == KEY_DOWN_H {
        Some((7, false))
    } else {
        None
    }
}

/// What a key event means under the active mode.
pub open spec fn route_key_spec(mode: KeyboardMode, key: u32) -> KeyAction {
    if key == KEY_MODE_VIEW {
        KeyAction::SwitchMode(KeyboardMode::VIEW)
    } else if key == KEY_MODE_SLIME {
        KeyAction::SwitchMode(KeyboardMode::SLIME)
    } else if key == KEY_MODE_PHEREMONES {
        KeyAction::SwitchMode(KeyboardMode::PHEREMONES)
    } else if key == KEY_MODE_DEBUG {
        KeyAction::SwitchMode(KeyboardMode::DEBUG)
    } else {
        match mode {
            KeyboardMode::DEBUG => if key == KEY_PRINT {
                KeyAction::PrintDebug
            } else {
                KeyAction::Idle
            },
            KeyboardMode::SLIME => match key_slot(key) {
                Some(sd) => KeyAction::Adjust(
                    ParamDelta { coeff: slime_slot(sd.0), increase: sd.1 },
                ),
                None => KeyAction::Idle,
            },
            KeyboardMode::PHEREMONES => match key_slot(key) {
                Some(sd) => if sd.0 < 3 {
                    KeyAction::Adjust(ParamDelta { coeff: pheremone_slot(sd.0), increase: sd.1 })
                } else {
                    KeyAction::Idle
                },
                None => KeyAction::Idle,
            },
            KeyboardMode::VIEW => match key_slot(key) {
                Some(sd) => if sd.0 < 5 {
                    KeyAction::Adjust(ParamDelta { coeff: view_slot(sd.0), increase: sd.1 })
                } else {
                    KeyAction::Idle
                },
                None => KeyAction::Idle,
            },
        }
    }
}

/// Interpret one key event under the active mode.
pub fn route_key(mode: KeyboardMode, key: u32) -> (a: KeyAction)
    ensures
        a == route_key_spec(mode, key),
{
    if key == KEY_MODE_VIEW {
        KeyAction::SwitchMode(KeyboardMode::VIEW)
    } else if key == KEY_MODE_SLIME {
        KeyAction::SwitchMode(KeyboardMode::SLIME)
    } else if key == KEY_MODE_PHEREMONES {
        KeyAction::SwitchMode(KeyboardMode::PHEREMONES)
    } else if key == KEY_MODE_DEBUG {
        KeyAction::SwitchMode(KeyboardMode::DEBUG)
    } else {
        let slot: Option<(usize, bool)> = if key == KEY_UP_A {
            Some((0, true))
        } else if key == KEY_DOWN_A {
            Some((0, false))
        } else if key == KEY_UP_B {
            Some((1, true))
        } else if key == KEY_DOWN_B {
            Some((1, false))
        } else if key == KEY_UP_C {
            Some((2, true))
        } else if key == KEY_DOWN_C {
            Some((2, false))
        } else if key == KEY_UP_D {
            Some((3, true))
        } else if key == KEY_DOWN_D {
            Some((3, false))
        } else if key == KEY_UP_E {
            Some((4, true))
        } else if key == KEY_DOWN_E {
            Some((4, false))
        } else if key == KEY_UP_F {
            Some((5, true))
        } else if key == KEY_DOWN_F {
            Some((5, false))
        } else if key == KEY_UP_G {
            Some((6, true))
        } else if key == KEY_DOWN_G {
            Some((6, false))
        } else if key == KEY_UP_H {
            Some((7, true))
        } else if key == KEY_DOWN_H {
            Some((7, false))
        } else {
            None
        };
        match mode {
            KeyboardMode::DEBUG => {
                if key == KEY_PRINT {
                    KeyAction::PrintDebug
                } else {
                    KeyAction::Idle
                }
            },
            KeyboardMode::SLIME => {
                match slot {
                    Some((s, up)) => {
                        let coeff = if s == 0 {
                            Coefficient::MaxVelocity
                        } else if s == 1 {
                            Coefficient::MinVelocity
                        } else if s == 2 {
                            Coefficient::TurnFactor
                        } else if s == 3 {
                            Coefficient::AvoidFactor
                        } else if s == 4 {
                            Coefficient::SensorDist
                        } else if s == 5 {
                            Coefficient::SensorOffset
                        } else if s == 6 {
                            Coefficient::SensorRadius
                        } else {
                            Coefficient::BrownianOffset
                        };
                        KeyAction::Adjust(ParamDelta { coeff, increase: up })
                    },
                    None => KeyAction::Idle,
                }
            },
            KeyboardMode::PHEREMONES => {
                match slot {
                    Some((s, up)) => {
                        if s == 0 {
                            KeyAction::Adjust(
                                ParamDelta { coeff: Coefficient::DepositionAmount, increase: up },
                            )
                        } else if s == 1 {
                            KeyAction::Adjust(
                                ParamDelta { coeff: Coefficient::DiffusionFactor, increase: up },
                            )
                        } else if s == 2 {
                            KeyAction::Adjust(
                                ParamDelta { coeff: Coefficient::DecayFactor, increase: up },
                            )
                        } else {
                            KeyAction::Idle
                        }
                    },
                    None => KeyAction::Idle,
                }
            },
            KeyboardMode::VIEW => {
                match slot {
                    Some((s, up)) => {
                        if s == 0 {
                            KeyAction::Adjust(
                                ParamDelta { coeff: Coefficient::ShiftModifier, increase: up },
                            )
                        } else if s == 1 {
                            KeyAction::Adjust(
                                ParamDelta { coeff: Coefficient::XShift, increase: up },
                            )
                        } else if s == 2 {
                            KeyAction::Adjust(
                                ParamDelta { coeff: Coefficient::YShift, increase: up },
                            )
                        } else if s == 3 {
                            KeyAction::Adjust(
                                ParamDelta { coeff: Coefficient::Zoom, increase: up },
                            )
                        } else if s == 4 {
                            KeyAction::Adjust(
                                ParamDelta { coeff: Coefficient::TimeModifier, increase: up },
                            )
                        } else {
                            KeyAction::Idle
                        }
                    },
                    None => KeyAction::Idle,
                }
            },
        }
    }
}

/// Parameter store, mode and pending flags after routing the first `k`
/// events of a frame, in arrival order: `(params, mode, any parameter
/// changed, debug print requested)`.
pub open spec fn routed(p: Params, m: KeyboardMode, keys: Seq<u32>, k: int) -> (
    Params,
    KeyboardMode,
    bool,
    bool,
)
    decreases k,
{
    if k <= 0 {
        (p, m, false, false)
    } else {
        let prev = routed(p, m, keys, k - 1);
        match route_key_spec(prev.1, keys[k - 1]) {
            KeyAction::Idle => prev,
            KeyAction::SwitchMode(m2) => (prev.0, m2, prev.2, prev.3),
            KeyAction::Adjust(d) => (apply_spec(prev.0, d), prev.1, true, prev.3),
            KeyAction::PrintDebug => (prev.0, prev.1, prev.2, true),
        }
    }
}

/// Routing any prefix of events keeps the store inside its domains.
pub proof fn lemma_routed_wf(p: Params, m: KeyboardMode, keys: Seq<u32>, k: int)
    requires
        params_wf(p),
        0 <= k,
    ensures
        params_wf(routed(p, m, keys, k).0),
    decreases k,
{
    if k > 0 {
        lemma_routed_wf(p, m, keys, k - 1);
        let prev = routed(p, m, keys, k - 1);
        match route_key_spec(prev.1, keys[k - 1]) {
            KeyAction::Adjust(d) => {
                crate::params::lemma_apply_preserves_domains(prev.0, d);
            },
            _ => {},
        }
    }
}

/// Route a frame's key events, in order, into the parameter store and
/// the mode machine. Returns whether any coefficient changed — the cue
/// to push the store to the device — and whether a debug print was
/// requested.
pub fn update_controls(params: &mut Params, mode: &mut KeyboardMode, keys: &Vec<u32>) -> (r: (
    bool,
    bool,
))
    requires
        params_wf(*old(params)),
    ensures
        ({
            let out = routed(*old(params), *old(mode), keys@, keys@.len() as int);
            &&& *final(params) == out.0
            &&& *final(mode) == out.1
            &&& r.0 == out.2
            &&& r.1 == out.3
        }),
        params_wf(*final(params)),
{
    let n = keys.len();
    let mut changed = false;
    let mut print = false;
    let mut k: usize = 0;
    while k < n
        invariant
            k <= n,
            n == keys@.len(),
            params_wf(*params),
            ({
                let out = routed(*old(params), *old(mode), keys@, k as int);
                &&& *params == out.0
                &&& *mode == out.1
                &&& changed == out.2
                &&& print == out.3
            }),
        decreases n - k,
    {
        match route_key(*mode, keys[k]) {
            KeyAction::Idle => {},
            KeyAction::SwitchMode(m2) => {
                *mode = m2;
            },
            KeyAction::Adjust(d) => {
                params.apply(d);
                changed = true;
            },
            KeyAction::PrintDebug => {
                print = true;
            },
        }
        k = k + 1;
    }
    (changed, print)
}

} // verus!
