//! Frame scheduler: the per-frame control loop and its state machine.
//!
//! One frame runs a strict sequence: (1) if the periodic timer elapsed,
//! stamp fresh attractor seeds into the field; (2) the movement kernel;
//! (3) the trail kernel, which must observe the movement pass's fresh
//! deposits; (4) the host-visible debug copy; (5) input routing into the
//! parameter store, synced to the device only if something changed.
//! The kernels read the *device's* parameter records, so a change routed
//! in step (5) takes effect on the next frame, never the one in flight:
//! a frame's outcome is a pure function of the state at its start.
//!
//! Presentation failures are classified per outcome: a lost surface is
//! recoverable (reconfigure and retry next frame), device out-of-memory
//! is fatal, and everything else is transient — skip one frame.

use vstd::prelude::*;

use crate::device::{pheremone_record, slime_record, synced, DeviceParams};
use crate::field::{field_wf, Agent, FieldStore, FoodPoint, MAX_DIM};
use crate::fixed::SCALE;
use crate::input::{routed, update_controls, KeyboardMode, KeyboardState};
use crate::kernels::{
    move_agents,
    stamped,
    trail_next,
    update_agent_position,
    update_food,
    update_pheremone_trails,
};
use crate::params::{
    default_params,
    init_params,
    lemma_params_wf_groups,
    params_wf,
    pheremone_wf,
    slime_wf,
    Params,
    PheremoneParams,
    SlimeParams,
};
use crate::rng::random_i64_between;

verus! {

/// Lifecycle of the scheduler: ready loops through simulating and
/// rendering once per frame until a close request.
#[allow(non_camel_case_types)]
#[derive(Clone, Copy, Debug, PartialEq, Eq, Structural)]
pub enum Phase {
    Uninitialized,
    Ready,
    Simulating,
    Rendering,
    ShuttingDown,
}

/// Why presenting a frame failed.
#[derive(Clone, Copy, Debug, PartialEq, Eq, Structural)]
pub enum PresentError {
    Lost,
    OutOfMemory,
    Outdated,
    Timeout,
    Other,
}

/// What the scheduler does about one frame's presentation outcome.
#[derive(Clone, Copy, Debug, PartialEq, Eq, Structural)]
pub enum FrameAction {
    Proceed,
    Reconfigure,
    Exit,
    SkipFrame,
}

/// The scheduler's reading of a presentation outcome: a lost surface is
/// recoverable, out-of-memory is fatal, all other errors are transient
/// and cost one frame.
pub open spec fn classify_spec(r: Result<(), PresentError>) -> FrameAction {
    match r {
        Result::Ok(_) => FrameAction::Proceed,
        Result::Err(PresentError::Lost) => FrameAction::Reconfigure,
        Result::Err(PresentError::OutOfMemory) => FrameAction::Exit,
        Result::Err(PresentError::Outdated) => FrameAction::SkipFrame,
        Result::Err(PresentError::Timeout) => FrameAction::SkipFrame,
        Result::Err(PresentError::Other) => FrameAction::SkipFrame,
    }
}

/// Classify one presentation outcome.
pub fn classify_present_result(r: &Result<(), PresentError>) -> (a: FrameAction)
    ensures
        a == classify_spec(*r),
{
    match r {
        Result::Ok(_) => FrameAction::Proceed,
        Result::Err(PresentError::Lost) => FrameAction::Reconfigure,
        Result::Err(PresentError::OutOfMemory) => FrameAction::Exit,
        Result::Err(PresentError::Outdated) => FrameAction::SkipFrame,
        Result::Err(PresentError::Timeout) => FrameAction::SkipFrame,
        Result::Err(PresentError::Other) => FrameAction::SkipFrame,
    }
}

/// Period of the attractor regeneration timer.
pub const FOOD_PERIOD_MS: u64 = 10_000;

/// Intensity stamped into a seeded cell.
pub const FOOD_SEED: i64 = 1_000_000_000;

/// The regeneration timer has elapsed: a full period has passed since
/// the last trigger.
pub open spec fn regen_due(now_ms: u64, last_ms: u64) -> bool {
    now_ms >= last_ms + FOOD_PERIOD_MS
}

/// Monotonic form of the periodic check: compare elapsed time since the
/// last trigger against the period.
pub fn food_timer_due(now_ms: u64, last_ms: u64) -> (r: bool)
    requires
        last_ms <= now_ms,
    ensures
        r == regen_due(now_ms, last_ms),
{
    now_ms - last_ms >= FOOD_PERIOD_MS
}

/// A one-second-resolution sampling of a continuous timer: true whenever
/// the whole-second reading falls on a period boundary. At frame rates
/// above one frame per second this holds for every frame of the matching
/// second, so the scheduler keeps a last-triggered timestamp and uses
/// [`food_timer_due`] instead; this form is kept as the documented
/// coarse policy it replaces.
pub fn coarse_timer_check(elapsed_secs: u64, period_secs: u64) -> (r: bool)
    requires
        period_secs > 0,
    ensures
        r == (elapsed_secs % period_secs == 0),
{
    elapsed_secs % period_secs == 0
}

/// Crossing the period boundary triggers exactly once: after a trigger
/// stamps its own time as the new baseline, no frame strictly inside the
/// following period can trigger again, however dense the frame cadence.
pub proof fn lemma_regen_exactly_once(trigger_ms: u64, later_ms: u64)
    requires
        later_ms < trigger_ms + FOOD_PERIOD_MS,
    ensures
        !regen_due(later_ms, trigger_ms),
{
}

/// The agent-kinetics record read back from device field order.
pub open spec fn slime_of_record(s: Seq<i64>) -> SlimeParams {
    SlimeParams {
        max_velocity: s[0],
        min_velocity: s[1],
        turn_factor: s[2],
        avoid_factor: s[3],
        sensor_dist: s[4],
        sensor_offset: s[5],
        sensor_radius: s[6],
        brownian_offset: s[7],
    }
}

/// The trail-kinetics record read back from device field order.
pub open spec fn pheremone_of_record(s: Seq<i64>) -> PheremoneParams {
    PheremoneParams { deposition_amount: s[0], diffusion_factor: s[1], decay_factor: s[2] }
}

/// Reading a record back undoes writing it: the device layout is a
/// faithful image of the store's group.
pub proof fn lemma_record_round_trip(p: Params)
    ensures
        slime_of_record(slime_record(p.slime_params)) == p.slime_params,
        pheremone_of_record(pheremone_record(p.pheremone_params)) == p.pheremone_params,
{
}

/// Decode the device's agent-kinetics record.
fn slime_from_device(d: &DeviceParams) -> (sp: SlimeParams)
    requires
        d.slime_buf@.len() == 8,
    ensures
        sp == slime_of_record(d.slime_buf@),
{
    SlimeParams {
        max_velocity: d.slime_buf[0],
        min_velocity: d.slime_buf[1],
        turn_factor: d.slime_buf[2],
        avoid_factor: d.slime_buf[3],
        sensor_dist: d.slime_buf[4],
        sensor_offset: d.slime_buf[5],
        sensor_radius: d.slime_buf[6],
        brownian_offset: d.slime_buf[7],
    }
}

/// Decode the device's trail-kinetics record.
fn pheremone_from_device(d: &DeviceParams) -> (pp: PheremoneParams)
    requires
        d.pheremone_buf@.len() == 3,
    ensures
        pp == pheremone_of_record(d.pheremone_buf@),
{
    PheremoneParams {
        deposition_amount: d.pheremone_buf[0],
        diffusion_factor: d.pheremone_buf[1],
        decay_factor: d.pheremone_buf[2],
    }
}

/// One movement-then-trail kernel pair, as dispatched by one frame.
pub open spec fn kernel_pair(
    agents: Seq<Agent>,
    trail: Seq<i64>,
    w: int,
    h: int,
    sp: SlimeParams,
    pp: PheremoneParams,
    perts: Seq<(i64, i64)>,
) -> (Seq<Agent>, Seq<i64>) {
    let moved = move_agents(
        agents,
        trail,
        w,
        h,
        sp,
        pp.deposition_amount as int,
        perts,
        agents.len() as int,
    );
    (
        moved.0,
        trail_next(moved.1, w, h, pp.diffusion_factor as int, pp.decay_factor as int),
    )
}

/// The kernel pair iterated over consecutive frames, each frame with its
/// own perturbation draw.
pub open spec fn run_kernel_pairs(
    agents: Seq<Agent>,
    trail: Seq<i64>,
    w: int,
    h: int,
    sp: SlimeParams,
    pp: PheremoneParams,
    perts_by_frame: Seq<Seq<(i64, i64)>>,
    n: int,
) -> (Seq<Agent>, Seq<i64>)
    decreases n,
{
    if n <= 0 {
        (agents, trail)
    } else {
        let prev = run_kernel_pairs(agents, trail, w, h, sp, pp, perts_by_frame, n - 1);
        kernel_pair(prev.0, prev.1, w, h, sp, pp, perts_by_frame[n - 1])
    }
}

/// Frame-order invariant: with a fixed parameter snapshot, a fixed field
/// seed and the same per-frame perturbation draws, running the
/// movement-then-trail kernel pair any number of times reproduces the
/// same grids byte for byte — the kernels are pure functions of their
/// inputs, with no hidden per-frame state.
pub proof fn lemma_frames_reproducible(
    agents1: Seq<Agent>,
    trail1: Seq<i64>,
    agents2: Seq<Agent>,
    trail2: Seq<i64>,
    w: int,
    h: int,
    sp: SlimeParams,
    pp: PheremoneParams,
    perts_by_frame: Seq<Seq<(i64, i64)>>,
    n: int,
)
    requires
        agents1 == agents2,
        trail1 == trail2,
    ensures
        run_kernel_pairs(agents1, trail1, w, h, sp, pp, perts_by_frame, n) == run_kernel_pairs(
            agents2,
            trail2,
            w,
            h,
            sp,
            pp,
            perts_by_frame,
            n,
        ),
{
}

/// A frame that does not regenerate food acts on the grids exactly as
/// one kernel pair: chaining such frames is chaining the pair, which is
/// what [`run_kernel_pairs`] iterates.
pub proof fn lemma_quiet_frame_is_kernel_pair(
    agents0: Seq<Agent>,
    trail0: Seq<i64>,
    w: int,
    h: int,
    sp: SlimeParams,
    pp: PheremoneParams,
    food: Seq<FoodPoint>,
    perts: Seq<(i64, i64)>,
    agents1: Seq<Agent>,
    trail1: Seq<i64>,
)
    ensures
        frame_effect(agents0, trail0, w, h, sp, pp, false, food, perts, agents1, trail1)
            <==> (agents1, trail1) == kernel_pair(agents0, trail0, w, h, sp, pp, perts),
{
}

/// The whole field-state effect of one frame: the optional attractor
/// stamp, then the movement-then-trail kernel pair.
pub open spec fn frame_effect(
    agents0: Seq<Agent>,
    trail0: Seq<i64>,
    w: int,
    h: int,
    sp: SlimeParams,
    pp: PheremoneParams,
    due: bool,
    food: Seq<FoodPoint>,
    perts: Seq<(i64, i64)>,
    agents1: Seq<Agent>,
    trail1: Seq<i64>,
) -> bool {
    let t1 = if due {
        stamped(trail0, w, h, food, FOOD_SEED)
    } else {
        trail0
    };
    let kp = kernel_pair(agents0, t1, w, h, sp, pp, perts);
    agents1 == kp.0 && trail1 == kp.1
}

/// The scheduler and everything it owns: the field store, the parameter
/// store, the device-visible records, the input machine and the debug
/// scratch.
pub struct Simulation {
    pub phase: Phase,
    pub params: Params,
    pub device: DeviceParams,
    pub field: FieldStore,
    pub controls: KeyboardState,
    pub last_food_ms: u64,
    pub scratch_agents: Vec<Agent>,
    pub debug_requested: bool,
}

/// Structural invariant of the scheduler: both stores well-formed and
/// the device records shaped and bounded as the kernels expect.
pub open spec fn sim_wf(s: Simulation) -> bool {
    &&& params_wf(s.params)
    &&& field_wf(s.field)
    &&& s.device.slime_buf@.len() == 8
    &&& s.device.pheremone_buf@.len() == 3
    &&& slime_wf(slime_of_record(s.device.slime_buf@))
    &&& pheremone_wf(pheremone_of_record(s.device.pheremone_buf@))
}

impl Simulation {
    /// Stand the simulation up: default parameters already pushed to the
    /// device, a zeroed trail, and every agent resting at the centre.
    pub fn new(width: usize, height: usize, agent_count: usize) -> (s: Simulation)
        requires
            0 < width <= MAX_DIM,
            0 < height <= MAX_DIM,
        ensures
            sim_wf(s),
            s.phase == Phase::Ready,
            s.params == default_params(),
            synced(s.device, s.params),
            s.field.width == width,
            s.field.height == height,
            s.field.agents@.len() == agent_count,
            forall|i: int| 0 <= i < s.field.trail@.len() ==> #[trigger] s.field.trail@[i] == 0,
            s.last_food_ms == 0,
            s.controls.mode == KeyboardMode::VIEW,
            s.controls.keys@ == Set::<u32>::empty(),
            s.scratch_agents@.len() == 0,
            s.debug_requested == false,
    {
        let params = init_params();
        let mut device = DeviceParams::new();
        device.sync_to_device(&params);
        let field = FieldStore::allocate(width, height, agent_count);
        let controls = KeyboardState::new();
        proof {
            lemma_params_wf_groups(params);
            lemma_record_round_trip(params);
        }
        Simulation {
            phase: Phase::Ready,
            params,
            device,
            field,
            controls,
            last_food_ms: 0,
            scratch_agents: Vec::new(),
            debug_requested: false,
        }
    }

    /// Reinitialize the agent grid for a simulation start.
    pub fn init_slime(&mut self)
        requires
            sim_wf(*old(self)),
        ensures
            sim_wf(*final(self)),
            final(self).field.agents@.len() == old(self).field.agents@.len(),
            forall|i: int|
                0 <= i < final(self).field.agents@.len() ==> {
                    let a = #[trigger] final(self).field.agents@[i];
                    &&& (a.pos_x as int, a.pos_y as int) == crate::field::start_pos(i)
                    &&& -crate::field::INIT_VEL_X_BOUND <= a.vel_x <= crate::field::INIT_VEL_X_BOUND
                    &&& -crate::field::INIT_VEL_Y_BOUND <= a.vel_y <= crate::field::INIT_VEL_Y_BOUND
                },
            final(self).field.trail@ == old(self).field.trail@,
            final(self).phase == old(self).phase,
    {
        self.field.init_agents_data();
    }

    /// Copy the current agent grid into the host-visible scratch — the
    /// once-per-frame debug copy, only ever printed on request.
    pub fn update_cpu_read_buffers(&mut self)
        ensures
            final(self).scratch_agents@ == old(self).field.agents@,
            final(self).field == old(self).field,
            final(self).params == old(self).params,
            final(self).device == old(self).device,
            final(self).controls == old(self).controls,
            final(self).phase == old(self).phase,
            final(self).last_food_ms == old(self).last_food_ms,
            final(self).debug_requested == old(self).debug_requested,
    {
        let n = self.field.agents.len();
        let mut out: Vec<Agent> = Vec::new();
        let mut k: usize = 0;
        while k < n
            invariant
                k <= n,
                n == self.field.agents@.len(),
                out@ == self.field.agents@.subrange(0, k as int),
            decreases n - k,
        {
            out.push(self.field.agents[k]);
            proof {
                assert(out@ =~= self.field.agents@.subrange(0, k as int + 1));
            }
            k = k + 1;
        }
        proof {
            assert(out@ =~= self.field.agents@);
        }
        self.scratch_agents = out;
    }

    /// Run one frame's simulation steps with every input given
    /// explicitly: the deterministic core of the frame loop. Kernels
    /// read the device records, so parameter changes routed in this very
    /// frame take effect only from the next frame on.
    pub fn step_frame_with(
        &mut self,
        now_ms: u64,
        keys: &Vec<u32>,
        food_pts: &Vec<FoodPoint>,
        perts: &Vec<(i64, i64)>,
    )
        requires
            sim_wf(*old(self)),
            old(self).phase == Phase::Ready,
            old(self).last_food_ms <= now_ms,
            perts@.len() == old(self).field.agents@.len(),
            forall|i: int|
                0 <= i < perts@.len() ==> -SCALE <= #[trigger] perts@[i].0 <= SCALE && -SCALE
                    <= perts@[i].1 <= SCALE,
        ensures
            sim_wf(*final(self)),
            final(self).phase == Phase::Rendering,
            final(self).field.width == old(self).field.width,
            final(self).field.height == old(self).field.height,
            frame_effect(
                old(self).field.agents@,
                old(self).field.trail@,
                old(self).field.width as int,
                old(self).field.height as int,
                slime_of_record(old(self).device.slime_buf@),
                pheremone_of_record(old(self).device.pheremone_buf@),
                regen_due(now_ms, old(self).last_food_ms),
                food_pts@,
                perts@,
                final(self).field.agents@,
                final(self).field.trail@,
            ),
            final(self).scratch_agents@ == final(self).field.agents@,
            final(self).last_food_ms == if regen_due(now_ms, old(self).last_food_ms) {
                now_ms
            } else {
                old(self).last_food_ms
            },
            ({
                let out = routed(
                    old(self).params,
                    old(self).controls.mode,
                    keys@,
                    keys@.len() as int,
                );
                &&& final(self).params == out.0
                &&& final(self).controls.mode == out.1
                &&& final(self).controls.keys@ == old(self).controls.keys@
                &&& final(self).debug_requested == out.3
                &&& out.2 ==> synced(final(self).device, out.0)
                &&& !out.2 ==> final(self).device.slime_buf@ == old(self).device.slime_buf@
                    && final(self).device.pheremone_buf@ == old(self).device.pheremone_buf@
                    && final(self).device.view_buf@ == old(self).device.view_buf@
            }),
    {
        let due = food_timer_due(now_ms, self.last_food_ms);
        if due {
            update_food(&mut self.field, food_pts, FOOD_SEED);
            self.last_food_ms = now_ms;
        }
        let sp = slime_from_device(&self.device);
        let pp = pheremone_from_device(&self.device);
        update_agent_position(&mut self.field, &sp, pp.deposition_amount, perts);
        update_pheremone_trails(&mut self.field, &pp);
        self.update_cpu_read_buffers();
        let (changed, print) = update_controls(&mut self.params, &mut self.controls.mode, keys);
        self.debug_requested = print;
        if changed {
            self.device.sync_to_device(&self.params);
            proof {
                lemma_params_wf_groups(self.params);
                lemma_record_round_trip(self.params);
            }
        }
        self.phase = Phase::Rendering;
    }

    /// Run one frame, drawing the frame's brownian perturbations — and,
    /// when the timer elapsed, fresh attractor coordinates — from the
    /// thread's generator. Everything except those draws is the
    /// deterministic pipeline of [`Simulation::step_frame_with`], and
    /// the draws stay inside the configured bounds whatever comes back.
    pub fn step_frame(&mut self, now_ms: u64, keys: &Vec<u32>)
        requires
            sim_wf(*old(self)),
            old(self).phase == Phase::Ready,
            old(self).last_food_ms <= now_ms,
        ensures
            sim_wf(*final(self)),
            final(self).phase == Phase::Rendering,
            final(self).field.width == old(self).field.width,
            final(self).field.height == old(self).field.height,
            final(self).scratch_agents@ == final(self).field.agents@,
            final(self).last_food_ms == if regen_due(now_ms, old(self).last_food_ms) {
                now_ms
            } else {
                old(self).last_food_ms
            },
            ({
                let out = routed(
                    old(self).params,
                    old(self).controls.mode,
                    keys@,
                    keys@.len() as int,
                );
                &&& final(self).params == out.0
                &&& final(self).controls.mode == out.1
                &&& final(self).controls.keys@ == old(self).controls.keys@
                &&& final(self).debug_requested == out.3
            }),
            exists|food: Seq<FoodPoint>, ps: Seq<(i64, i64)>|
                {
                    let b = slime_of_record(old(self).device.slime_buf@).brownian_offset;
                    &&& #[trigger] frame_effect(
                        old(self).field.agents@,
                        old(self).field.trail@,
                        old(self).field.width as int,
                        old(self).field.height as int,
                        slime_of_record(old(self).device.slime_buf@),
                        pheremone_of_record(old(self).device.pheremone_buf@),
                        regen_due(now_ms, old(self).last_food_ms),
                        food,
                        ps,
                        final(self).field.agents@,
                        final(self).field.trail@,
                    )
                    &&& ps.len() == old(self).field.agents@.len()
                    &&& forall|i: int| 0 <= i < ps.len() ==> -b <= #[trigger] ps[i].0 <= b && -b
                        <= ps[i].1 <= b
                },
    {
        let b = {
            let sp = slime_from_device(&self.device);
            sp.brownian_offset
        };
        let n = self.field.agents.len();
        let mut perts: Vec<(i64, i64)> = Vec::new();
        let mut k: usize = 0;
        while k < n
            invariant
                k <= n,
                0 <= b <= SCALE,
                perts@.len() == k,
                forall|i: int|
                    0 <= i < k ==> -b <= #[trigger] perts@[i].0 <= b && -b <= perts@[i].1 <= b,
            decreases n - k,
        {
            let dx = random_i64_between(-b, b);
            let dy = random_i64_between(-b, b);
            perts.push((dx, dy));
            k = k + 1;
        }
        let food_pts = crate::kernels::generate_food_coords(self.field.width, self.field.height);
        self.step_frame_with(now_ms, keys, &food_pts, &perts);
    }

    /// Digest one presentation outcome: reconfigure on a lost surface,
    /// shut down on out-of-memory, skip a frame on anything else, and
    /// return to ready for the next frame otherwise.
    pub fn present_outcome(&mut self, r: &Result<(), PresentError>) -> (a: FrameAction)
        requires
            old(self).phase == Phase::Rendering,
        ensures
            a == classify_spec(*r),
            final(self).phase == if a == FrameAction::Exit {
                Phase::ShuttingDown
            } else {
                Phase::Ready
            },
            final(self).params == old(self).params,
            final(self).device == old(self).device,
            final(self).field == old(self).field,
            final(self).controls == old(self).controls,
            final(self).scratch_agents == old(self).scratch_agents,
            final(self).debug_requested == old(self).debug_requested,
            final(self).last_food_ms == old(self).last_food_ms,
    {
        let a = classify_present_result(r);
        if let FrameAction::Exit = a {
            self.phase = Phase::ShuttingDown;
        } else {
            self.phase = Phase::Ready;
        }
        a
    }

    /// The application close request: the one cancellation point, taken
    /// between frames.
    pub fn request_close(&mut self)
        ensures
            final(self).phase == Phase::ShuttingDown,
            final(self).params == old(self).params,
            final(self).device == old(self).device,
            final(self).field == old(self).field,
            final(self).controls == old(self).controls,
            final(self).last_food_ms == old(self).last_food_ms,
    {
        self.phase = Phase::ShuttingDown;
    }
}

} // verus!
