//! Parameter store: the tunable simulation coefficients.
//!
//! Coefficients are fixed-point integers in millionths (see [`crate::fixed`])
//! and are divided into three groups: agent kinetics ([`SlimeParams`]),
//! trail kinetics ([`PheremoneParams`]) and the view transform
//! ([`ViewParams`]). Every mutation goes through [`Params::apply`], which
//! clamps the changed coefficient into its declared domain, so a
//! well-formed store can never leave its domains however many deltas are
//! applied ([`lemma_apply_all_preserves_domains`]).

use vstd::prelude::*;

use crate::fixed::{clamped, SCALE};

verus! {

/// Agent-kinetics coefficients, in the exact order the movement kernel's
/// device record expects them.
#[derive(Clone, Copy, Debug, PartialEq, Eq, Structural)]
pub struct SlimeParams {
    pub max_velocity: i64,
    pub min_velocity: i64,
    pub turn_factor: i64,
    pub avoid_factor: i64,
    pub sensor_dist: i64,
    pub sensor_offset: i64,
    pub sensor_radius: i64,
    pub brownian_offset: i64,
}

/// Trail-kinetics coefficients, in the exact order the trail kernel's
/// device record expects them.
#[derive(Clone, Copy, Debug, PartialEq, Eq, Structural)]
pub struct PheremoneParams {
    pub deposition_amount: i64,
    pub diffusion_factor: i64,
    pub decay_factor: i64,
}

/// View/camera coefficients, in the exact order the render kernel's
/// device record expects them.
#[derive(Clone, Copy, Debug, PartialEq, Eq, Structural)]
pub struct ViewParams {
    pub shift_modifier: i64,
    pub x_shift: i64,
    pub y_shift: i64,
    pub zoom: i64,
    pub time_modifier: i64,
}

/// The whole parameter store.
#[derive(Clone, Copy, Debug, PartialEq, Eq, Structural)]
pub struct Params {
    pub view_params: ViewParams,
    pub slime_params: SlimeParams,
    pub pheremone_params: PheremoneParams,
}

/// One tunable coefficient.
#[derive(Clone, Copy, Debug, PartialEq, Eq, Structural)]
pub enum Coefficient {
    MaxVelocity,
    MinVelocity,
    TurnFactor,
    AvoidFactor,
    SensorDist,
    SensorOffset,
    SensorRadius,
    BrownianOffset,
    DepositionAmount,
    DiffusionFactor,
    DecayFactor,
    ShiftModifier,
    XShift,
    YShift,
    Zoom,
    TimeModifier,
}

/// One discrete mutation: nudge a coefficient up or down by its step.
#[derive(Clone, Copy, Debug, PartialEq, Eq, Structural)]
pub struct ParamDelta {
    pub coeff: Coefficient,
    pub increase: bool,
}

pub const ZOOM_MIN: i64 = 1_000;
pub const ZOOM_MAX: i64 = 100_000_000;
pub const TIME_MODIFIER_MAX: i64 = 100_000_000;
pub const SENSOR_OFFSET_MAX: i64 = 4_000_000;

pub const STEP_VELOCITY: i64 = 100;
pub const STEP_TURN: i64 = 100;
pub const STEP_AVOID: i64 = 100;
pub const STEP_SENSOR_DIST: i64 = 500;
pub const STEP_SENSOR_OFFSET: i64 = 10_000;
pub const STEP_SENSOR_RADIUS: i64 = 100;
pub const STEP_BROWNIAN: i64 = 1;
pub const STEP_DEPOSITION: i64 = 100;
pub const STEP_DIFFUSION: i64 = 10_000;
pub const STEP_DECAY: i64 = 1_000;
pub const STEP_SHIFT_MODIFIER: i64 = 1_000;
pub const STEP_SHIFT: i64 = 10_000;
pub const STEP_ZOOM: i64 = 10_000;
pub const STEP_TIME_MODIFIER: i64 = 10_000;

/// Lower edge of a coefficient's declared domain.
pub open spec fn coeff_lo(c: Coefficient) -> int {
    match c {
        Coefficient::MaxVelocity => 0,
        Coefficient::MinVelocity => -SCALE as int,
        Coefficient::TurnFactor => 0,
        Coefficient::AvoidFactor => -SCALE as int,
        Coefficient::SensorDist => 0,
        Coefficient::SensorOffset => 0,
        Coefficient::SensorRadius => 0,
        Coefficient::BrownianOffset => 0,
        Coefficient::DepositionAmount => 0,
        Coefficient::DiffusionFactor => 0,
        Coefficient::DecayFactor => 0,
        Coefficient::ShiftModifier => 0,
        Coefficient::XShift => -SCALE as int,
        Coefficient::YShift => -SCALE as int,
        Coefficient::Zoom => ZOOM_MIN as int,
        Coefficient::TimeModifier => 0,
    }
}

/// Upper edge of a coefficient's declared domain. The decay factor is the
/// retained fraction per frame and stays strictly below one, so the trail
/// has a steady-state ceiling.
pub open spec fn coeff_hi(c: Coefficient) -> int {
    match c {
        Coefficient::MaxVelocity => SCALE as int,
        Coefficient::MinVelocity => 0,
        Coefficient::TurnFactor => SCALE as int,
        Coefficient::AvoidFactor => 0,
        Coefficient::SensorDist => SCALE as int,
        Coefficient::SensorOffset => SENSOR_OFFSET_MAX as int,
        Coefficient::SensorRadius => SCALE as int,
        Coefficient::BrownianOffset => SCALE as int,
        Coefficient::DepositionAmount => SCALE as int,
        Coefficient::DiffusionFactor => SCALE as int,
        Coefficient::DecayFactor => SCALE - 1,
        Coefficient::ShiftModifier => SCALE as int,
        Coefficient::XShift => SCALE as int,
        Coefficient::YShift => SCALE as int,
        Coefficient::Zoom => ZOOM_MAX as int,
        Coefficient::TimeModifier => TIME_MODIFIER_MAX as int,
    }
}

/// Size of one discrete adjustment of a coefficient.
pub open spec fn coeff_step(c: Coefficient) -> int {
    match c {
        Coefficient::MaxVelocity => STEP_VELOCITY as int,
        Coefficient::MinVelocity => STEP_VELOCITY as int,
        Coefficient::TurnFactor => STEP_TURN as int,
        Coefficient::AvoidFactor => STEP_AVOID as int,
        Coefficient::SensorDist => STEP_SENSOR_DIST as int,
        Coefficient::SensorOffset => STEP_SENSOR_OFFSET as int,
        Coefficient::SensorRadius => STEP_SENSOR_RADIUS as int,
        Coefficient::BrownianOffset => STEP_BROWNIAN as int,
        Coefficient::DepositionAmount => STEP_DEPOSITION as int,
        Coefficient::DiffusionFactor => STEP_DIFFUSION as int,
        Coefficient::DecayFactor => STEP_DECAY as int,
        Coefficient::ShiftModifier => STEP_SHIFT_MODIFIER as int,
        Coefficient::XShift => STEP_SHIFT as int,
        Coefficient::YShift => STEP_SHIFT as int,
        Coefficient::Zoom => STEP_ZOOM as int,
        Coefficient::TimeModifier => STEP_TIME_MODIFIER as int,
    }
}

/// The value a coefficient currently holds.
pub open spec fn coeff_of(p: Params, c: Coefficient) -> int {
    match c {
        Coefficient::MaxVelocity => p.slime_params.max_velocity as int,
        Coefficient::MinVelocity => p.slime_params.min_velocity as int,
        Coefficient::TurnFactor => p.slime_params.turn_factor as int,
        Coefficient::AvoidFactor => p.slime_params.avoid_factor as int,
        Coefficient::SensorDist => p.slime_params.sensor_dist as int,
        Coefficient::SensorOffset => p.slime_params.sensor_offset as int,
        Coefficient::SensorRadius => p.slime_params.sensor_radius as int,
        Coefficient::BrownianOffset => p.slime_params.brownian_offset as int,
        Coefficient::DepositionAmount => p.pheremone_params.deposition_amount as int,
        Coefficient::DiffusionFactor => p.pheremone_params.diffusion_factor as int,
        Coefficient::DecayFactor => p.pheremone_params.decay_factor as int,
        Coefficient::ShiftModifier => p.view_params.shift_modifier as int,
        Coefficient::XShift => p.view_params.x_shift as int,
        Coefficient::YShift => p.view_params.y_shift as int,
        Coefficient::Zoom => p.view_params.zoom as int,
        Coefficient::TimeModifier => p.view_params.time_modifier as int,
    }
}

/// Every coefficient sits inside its declared domain.
pub open spec fn params_wf(p: Params) -> bool {
    forall|c: Coefficient| coeff_lo(c) <= #[trigger] coeff_of(p, c) <= coeff_hi(c)
}

/// The store with one coefficient replaced.
pub open spec fn with_coeff(p: Params, c: Coefficient, v: i64) -> Params {
    match c {
        Coefficient::MaxVelocity => Params {
            slime_params: SlimeParams { max_velocity: v, ..p.slime_params },
            ..p
        },
        Coefficient::MinVelocity => Params {
            slime_params: SlimeParams { min_velocity: v, ..p.slime_params },
            ..p
        },
        Coefficient::TurnFactor => Params {
            slime_params: SlimeParams { turn_factor: v, ..p.slime_params },
            ..p
        },
        Coefficient::AvoidFactor => Params {
            slime_params: SlimeParams { avoid_factor: v, ..p.slime_params },
            ..p
        },
        Coefficient::SensorDist => Params {
            slime_params: SlimeParams { sensor_dist: v, ..p.slime_params },
            ..p
        },
        Coefficient::SensorOffset => Params {
            slime_params: SlimeParams { sensor_offset: v, ..p.slime_params },
            ..p
        },
        Coefficient::SensorRadius => Params {
            slime_params: SlimeParams { sensor_radius: v, ..p.slime_params },
            ..p
        },
        Coefficient::BrownianOffset => Params {
            slime_params: SlimeParams { brownian_offset: v, ..p.slime_params },
            ..p
        },
        Coefficient::DepositionAmount => Params {
            pheremone_params: PheremoneParams { deposition_amount: v, ..p.pheremone_params },
            ..p
        },
        Coefficient::DiffusionFactor => Params {
            pheremone_params: PheremoneParams { diffusion_factor: v, ..p.pheremone_params },
            ..p
        },
        Coefficient::DecayFactor => Params {
            pheremone_params: PheremoneParams { decay_factor: v, ..p.pheremone_params },
            ..p
        },
        Coefficient::ShiftModifier => Params {
            view_params: ViewParams { shift_modifier: v, ..p.view_params },
            ..p
        },
        Coefficient::XShift => Params {
            view_params: ViewParams { x_shift: v, ..p.view_params },
            ..p
        },
        Coefficient::YShift => Params {
            view_params: ViewParams { y_shift: v, ..p.view_params },
            ..p
        },
        Coefficient::Zoom => Params {
            view_params: ViewParams { zoom: v, ..p.view_params },
            ..p
        },
        Coefficient::TimeModifier => Params {
            view_params: ViewParams { time_modifier: v, ..p.view_params },
            ..p
        },
    }
}

/// The store after one delta: the chosen coefficient moves by its step and
/// is clamped into its domain; nothing else changes.
pub open spec fn apply_spec(p: Params, d: ParamDelta) -> Params {
    let dir = if d.increase {
        coeff_step(d.coeff)
    } else {
        -coeff_step(d.coeff)
    };
    let v = clamped(coeff_of(p, d.coeff) + dir, coeff_lo(d.coeff), coeff_hi(d.coeff));
    with_coeff(p, d.coeff, v as i64)
}

/// Reading back the coefficient that `with_coeff` wrote gives that value,
/// and every other coefficient is untouched.
pub proof fn lemma_with_coeff(p: Params, c: Coefficient, v: i64)
    ensures
        coeff_of(with_coeff(p, c, v), c) == v as int,
        forall|c2: Coefficient| c2 != c ==> #[trigger] coeff_of(with_coeff(p, c, v), c2) == coeff_of(
            p,
            c2,
        ),
{
}

/// One delta keeps every coefficient inside its domain.
pub proof fn lemma_apply_preserves_domains(p: Params, d: ParamDelta)
    requires
        params_wf(p),
    ensures
        params_wf(apply_spec(p, d)),
{
    let q = apply_spec(p, d);
    lemma_with_coeff(
        p,
        d.coeff,
        clamped(
            coeff_of(p, d.coeff) + if d.increase {
                coeff_step(d.coeff)
            } else {
                -coeff_step(d.coeff)
            },
            coeff_lo(d.coeff),
            coeff_hi(d.coeff),
        ) as i64,
    );
    assert forall|c: Coefficient| coeff_lo(c) <= #[trigger] coeff_of(q, c) <= coeff_hi(c) by {
        if c != d.coeff {
            assert(coeff_of(q, c) == coeff_of(p, c));
        }
    }
}

/// The store after a whole sequence of deltas, applied left to right.
pub open spec fn apply_all_spec(p: Params, ds: Seq<ParamDelta>) -> Params
    decreases ds.len(),
{
    if ds.len() == 0 {
        p
    } else {
        apply_all_spec(apply_spec(p, ds[0]), ds.drop_first())
    }
}

/// However many deltas are applied — the same one over and over included —
/// every coefficient stays inside its declared domain.
pub proof fn lemma_apply_all_preserves_domains(p: Params, ds: Seq<ParamDelta>)
    requires
        params_wf(p),
    ensures
        params_wf(apply_all_spec(p, ds)),
    decreases ds.len(),
{
    if ds.len() > 0 {
        lemma_apply_preserves_domains(p, ds[0]);
        lemma_apply_all_preserves_domains(apply_spec(p, ds[0]), ds.drop_first());
    }
}

impl Params {
    /// Mutate one coefficient in place, clamped into its domain.
    pub fn apply(&mut self, d: ParamDelta)
        requires
            params_wf(*old(self)),
        ensures
            *final(self) == apply_spec(*old(self), d),
            params_wf(*final(self)),
    {
        proof {
            lemma_apply_preserves_domains(*self, d);
        }
        let (step, lo, hi): (i64, i64, i64) = match d.coeff {
            Coefficient::MaxVelocity => (STEP_VELOCITY, 0, SCALE),
            Coefficient::MinVelocity => (STEP_VELOCITY, -SCALE, 0),
            Coefficient::TurnFactor => (STEP_TURN, 0, SCALE),
            Coefficient::AvoidFactor => (STEP_AVOID, -SCALE, 0),
            Coefficient::SensorDist => (STEP_SENSOR_DIST, 0, SCALE),
            Coefficient::SensorOffset => (STEP_SENSOR_OFFSET, 0, SENSOR_OFFSET_MAX),
            Coefficient::SensorRadius => (STEP_SENSOR_RADIUS, 0, SCALE),
            Coefficient::BrownianOffset => (STEP_BROWNIAN, 0, SCALE),
            Coefficient::DepositionAmount => (STEP_DEPOSITION, 0, SCALE),
            Coefficient::DiffusionFactor => (STEP_DIFFUSION, 0, SCALE),
            Coefficient::DecayFactor => (STEP_DECAY, 0, SCALE - 1),
            Coefficient::ShiftModifier => (STEP_SHIFT_MODIFIER, 0, SCALE),
            Coefficient::XShift => (STEP_SHIFT, -SCALE, SCALE),
            Coefficient::YShift => (STEP_SHIFT, -SCALE, SCALE),
            Coefficient::Zoom => (STEP_ZOOM, ZOOM_MIN, ZOOM_MAX),
            Coefficient::TimeModifier => (STEP_TIME_MODIFIER, 0, TIME_MODIFIER_MAX),
        };
        let dir: i64 = if d.increase {
            step
        } else {
            -step
        };
        let cur: i64 = self.read_coeff(d.coeff);
        let v: i64 = crate::fixed::clamp(cur + dir, lo, hi);
        self.write_coeff(d.coeff, v);
    }

    /// Current value of one coefficient.
    pub fn read_coeff(&self, c: Coefficient) -> (r: i64)
        ensures
            r as int == coeff_of(*self, c),
    {
        match c {
            Coefficient::MaxVelocity => self.slime_params.max_velocity,
            Coefficient::MinVelocity => self.slime_params.min_velocity,
            Coefficient::TurnFactor => self.slime_params.turn_factor,
            Coefficient::AvoidFactor => self.slime_params.avoid_factor,
            Coefficient::SensorDist => self.slime_params.sensor_dist,
            Coefficient::SensorOffset => self.slime_params.sensor_offset,
            Coefficient::SensorRadius => self.slime_params.sensor_radius,
            Coefficient::BrownianOffset => self.slime_params.brownian_offset,
            Coefficient::DepositionAmount => self.pheremone_params.deposition_amount,
            Coefficient::DiffusionFactor => self.pheremone_params.diffusion_factor,
            Coefficient::DecayFactor => self.pheremone_params.decay_factor,
            Coefficient::ShiftModifier => self.view_params.shift_modifier,
            Coefficient::XShift => self.view_params.x_shift,
            Coefficient::YShift => self.view_params.y_shift,
            Coefficient::Zoom => self.view_params.zoom,
            Coefficient::TimeModifier => self.view_params.time_modifier,
        }
    }

    /// Overwrite one coefficient.
    fn write_coeff(&mut self, c: Coefficient, v: i64)
        ensures
            *final(self) == with_coeff(*old(self), c, v),
    {
        match c {
            Coefficient::MaxVelocity => self.slime_params.max_velocity = v,
            Coefficient::MinVelocity => self.slime_params.min_velocity = v,
            Coefficient::TurnFactor => self.slime_params.turn_factor = v,
            Coefficient::AvoidFactor => self.slime_params.avoid_factor = v,
            Coefficient::SensorDist => self.slime_params.sensor_dist = v,
            Coefficient::SensorOffset => self.slime_params.sensor_offset = v,
            Coefficient::SensorRadius => self.slime_params.sensor_radius = v,
            Coefficient::BrownianOffset => self.slime_params.brownian_offset = v,
            Coefficient::DepositionAmount => self.pheremone_params.deposition_amount = v,
            Coefficient::DiffusionFactor => self.pheremone_params.diffusion_factor = v,
            Coefficient::DecayFactor => self.pheremone_params.decay_factor = v,
            Coefficient::ShiftModifier => self.view_params.shift_modifier = v,
            Coefficient::XShift => self.view_params.x_shift = v,
            Coefficient::YShift => self.view_params.y_shift = v,
            Coefficient::Zoom => self.view_params.zoom = v,
            Coefficient::TimeModifier => self.view_params.time_modifier = v,
        }
    }
}

/// Domains of the agent-kinetics group, as the movement kernel needs
/// them.
pub open spec fn slime_wf(sp: SlimeParams) -> bool {
    &&& 0 <= sp.max_velocity <= SCALE
    &&& -SCALE <= sp.min_velocity <= 0
    &&& 0 <= sp.turn_factor <= SCALE
    &&& -SCALE <= sp.avoid_factor <= 0
    &&& 0 <= sp.sensor_dist <= SCALE
    &&& 0 <= sp.sensor_offset <= SENSOR_OFFSET_MAX
    &&& 0 <= sp.sensor_radius <= SCALE
    &&& 0 <= sp.brownian_offset <= SCALE
}

/// Domains of the trail-kinetics group, as the trail kernel needs them.
/// The decay factor is the retained fraction and stays strictly below
/// one whole.
pub open spec fn pheremone_wf(pp: PheremoneParams) -> bool {
    &&& 0 <= pp.deposition_amount <= SCALE
    &&& 0 <= pp.diffusion_factor <= SCALE
    &&& 0 <= pp.decay_factor < SCALE
}

/// Domains of the view group, as the renderer needs them.
pub open spec fn view_wf(vp: ViewParams) -> bool {
    &&& 0 <= vp.shift_modifier <= SCALE
    &&& -SCALE <= vp.x_shift <= SCALE
    &&& -SCALE <= vp.y_shift <= SCALE
    &&& ZOOM_MIN <= vp.zoom <= ZOOM_MAX
    &&& 0 <= vp.time_modifier <= TIME_MODIFIER_MAX
}

/// A well-formed store has every group inside its domains.
pub proof fn lemma_params_wf_groups(p: Params)
    requires
        params_wf(p),
    ensures
        slime_wf(p.slime_params),
        pheremone_wf(p.pheremone_params),
        view_wf(p.view_params),
{
    assert(coeff_lo(Coefficient::MaxVelocity) <= coeff_of(p, Coefficient::MaxVelocity));
    assert(coeff_lo(Coefficient::MinVelocity) <= coeff_of(p, Coefficient::MinVelocity));
    assert(coeff_lo(Coefficient::TurnFactor) <= coeff_of(p, Coefficient::TurnFactor));
    assert(coeff_lo(Coefficient::AvoidFactor) <= coeff_of(p, Coefficient::AvoidFactor));
    assert(coeff_lo(Coefficient::SensorDist) <= coeff_of(p, Coefficient::SensorDist));
    assert(coeff_lo(Coefficient::SensorOffset) <= coeff_of(p, Coefficient::SensorOffset));
    assert(coeff_lo(Coefficient::SensorRadius) <= coeff_of(p, Coefficient::SensorRadius));
    assert(coeff_lo(Coefficient::BrownianOffset) <= coeff_of(p, Coefficient::BrownianOffset));
    assert(coeff_lo(Coefficient::DepositionAmount) <= coeff_of(p, Coefficient::DepositionAmount));
    assert(coeff_lo(Coefficient::DiffusionFactor) <= coeff_of(p, Coefficient::DiffusionFactor));
    assert(coeff_lo(Coefficient::DecayFactor) <= coeff_of(p, Coefficient::DecayFactor));
    assert(coeff_lo(Coefficient::ShiftModifier) <= coeff_of(p, Coefficient::ShiftModifier));
    assert(coeff_lo(Coefficient::XShift) <= coeff_of(p, Coefficient::XShift));
    assert(coeff_lo(Coefficient::YShift) <= coeff_of(p, Coefficient::YShift));
    assert(coeff_lo(Coefficient::Zoom) <= coeff_of(p, Coefficient::Zoom));
    assert(coeff_lo(Coefficient::TimeModifier) <= coeff_of(p, Coefficient::TimeModifier));
}

/// The parameter store at simulation start.
pub open spec fn default_params() -> Params {
    Params {
        view_params: ViewParams {
            shift_modifier: 10_000,
            x_shift: 0,
            y_shift: 0,
            zoom: SCALE,
            time_modifier: SCALE,
        },
        slime_params: SlimeParams {
            max_velocity: 3_000,
            min_velocity: -3_000i64,
            turn_factor: 2_000,
            avoid_factor: -3_000i64,
            sensor_dist: 10_000,
            sensor_offset: 1_047_200,
            sensor_radius: 1_000,
            brownian_offset: 5,
        },
        pheremone_params: PheremoneParams {
            deposition_amount: 1_000,
            diffusion_factor: 100_000,
            decay_factor: 985_000,
        },
    }
}

/// Build the parameter store with its startup defaults.
pub fn init_params() -> (p: Params)
    ensures
        p == default_params(),
        params_wf(p),
{
    let p = Params {
        view_params: ViewParams {
            shift_modifier: 10_000,
            x_shift: 0,
            y_shift: 0,
            zoom: SCALE,
            time_modifier: SCALE,
        },
        slime_params: SlimeParams {
            max_velocity: 3_000,
            min_velocity: -3_000i64,
            turn_factor: 2_000,
            avoid_factor: -3_000i64,
            sensor_dist: 10_000,
            sensor_offset: 1_047_200,
            sensor_radius: 1_000,
            brownian_offset: 5,
        },
        pheremone_params: PheremoneParams {
            deposition_amount: 1_000,
            diffusion_factor: 100_000,
            decay_factor: 985_000,
        },
    };
    proof {
        assert forall|c: Coefficient| coeff_lo(c) <= #[trigger] coeff_of(p, c) <= coeff_hi(c) by {
        }
    }
    p
}

} // verus!
