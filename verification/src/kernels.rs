//! The compute kernels, modelled as verified CPU loops.
//!
//! Each kernel is a pure function of the current field state, the
//! parameter snapshot and its per-frame inputs, run in a fixed order over
//! all agents or all grid cells. The movement kernel probes the trail
//! along three sensor rays, turns toward the strongest sample, integrates
//! velocity within the configured bounds, advances the position with
//! torus wrap-around and deposits trail at the new cell. The trail kernel
//! blends each cell with its four torus neighbours and decays the result,
//! never increasing the grid's total intensity without deposition. The
//! food kernel stamps attractor seeds over chosen cells.

use vstd::prelude::*;

use crate::field::{agent_wf, field_wf, Agent, FieldStore, FoodPoint, MAX_DIM};
use crate::fixed::{
    cell_index,
    cell_of,
    clamp,
    clamped,
    lemma_cell_of_range,
    lemma_scaled_bound,
    lemma_wrapped_range,
    scale_by,
    scaled,
    wrap_add,
    wrapped,
    CELL_MAX,
    SCALE,
};
use crate::grid::{
    down_of,
    left_of,
    lemma_sum_range_eq,
    lemma_sum_range_le,
    lemma_sum_range_linear,
    lemma_sum_shift_down,
    lemma_sum_shift_left,
    lemma_sum_shift_right,
    lemma_sum_shift_up,
    right_of,
    sum_range,
    up_of,
};
use crate::params::{pheremone_wf, slime_wf, PheremoneParams, SlimeParams};
use crate::rng::random_i64_between;

verus! {

/// Trail intensity at the cell holding a torus position.
pub open spec fn sample_at(trail: Seq<i64>, w: int, h: int, x: int, y: int) -> int {
    trail[cell_of(y, h) * w + cell_of(x, w)] as int
}

/// Row-major index of the cell an agent stands on.
pub open spec fn agent_cell(a: Agent, w: int, h: int) -> int {
    cell_of(a.pos_y as int, h) * w + cell_of(a.pos_x as int, w)
}

/// One agent after one movement step: probe the trail ahead, to the left
/// and to the right of the travel direction, turn toward the strongest
/// sample ([`stepped_sv`]), clamp the velocity into the configured
/// bounds, advance with wrap-around, and finally fold the brownian
/// perturbation into the velocity (again clamped) to seed the next
/// frame's motion.
pub open spec fn stepped_agent(
    a: Agent,
    trail: Seq<i64>,
    w: int,
    h: int,
    sp: SlimeParams,
    pert: (i64, i64),
) -> Agent {
    let sv = stepped_sv(a, trail, w, h, sp);
    let cvx = clamped(sv.0, sp.min_velocity as int, sp.max_velocity as int);
    let cvy = clamped(sv.1, sp.min_velocity as int, sp.max_velocity as int);
    let npx = wrapped(a.pos_x as int, cvx);
    let npy = wrapped(a.pos_y as int, cvy);
    let fvx = clamped(cvx + pert.0, sp.min_velocity as int, sp.max_velocity as int);
    let fvy = clamped(cvy + pert.1, sp.min_velocity as int, sp.max_velocity as int);
    Agent { pos_x: npx as i64, pos_y: npy as i64, vel_x: fvx as i64, vel_y: fvy as i64 }
}

/// A trail cell after a deposit of `dep`, saturating at the cell ceiling.
pub open spec fn deposited(t0: int, dep: int) -> int {
    if t0 + dep <= CELL_MAX {
        t0 + dep
    } else {
        CELL_MAX as int
    }
}

/// One agent's full movement-kernel step: the moved agent together with
/// the trail after its deposit at the new position.
pub open spec fn agent_step(
    a: Agent,
    trail: Seq<i64>,
    w: int,
    h: int,
    sp: SlimeParams,
    dep: int,
    pert: (i64, i64),
) -> (Agent, Seq<i64>) {
    let a2 = stepped_agent(a, trail, w, h, sp, pert);
    let di = agent_cell(a2, w, h);
    let t1 = deposited(trail[di] as int, dep);
    (a2, trail.update(di, t1 as i64))
}

/// The movement kernel applied to the first `k` agents in grid order;
/// each agent senses the trail as left by the agents before it in the
/// same pass.
pub open spec fn move_agents(
    agents: Seq<Agent>,
    trail: Seq<i64>,
    w: int,
    h: int,
    sp: SlimeParams,
    dep: int,
    perts: Seq<(i64, i64)>,
    k: int,
) -> (Seq<Agent>, Seq<i64>)
    decreases k,
{
    if k <= 0 {
        (agents, trail)
    } else {
        let prev = move_agents(agents, trail, w, h, sp, dep, perts, k - 1);
        let step = agent_step(prev.0[k - 1], prev.1, w, h, sp, dep, perts[k - 1]);
        (prev.0.update(k - 1, step.0), step.1)
    }
}

/// A stepped agent is still on the torus, and both its velocity
/// components sit inside the configured `[min_velocity, max_velocity]`
/// bounds.
pub proof fn lemma_stepped_agent_wf(
    a: Agent,
    trail: Seq<i64>,
    w: int,
    h: int,
    sp: SlimeParams,
    pert: (i64, i64),
)
    requires
        agent_wf(a),
        slime_wf(sp),
    ensures
        agent_wf(stepped_agent(a, trail, w, h, sp, pert)),
        sp.min_velocity <= stepped_agent(a, trail, w, h, sp, pert).vel_x <= sp.max_velocity,
        sp.min_velocity <= stepped_agent(a, trail, w, h, sp, pert).vel_y <= sp.max_velocity,
{
    let vx = a.vel_x as int;
    let vy = a.vel_y as int;
    lemma_scaled_bound(vy, sp.turn_factor as int, SCALE as int);
    lemma_scaled_bound(vx, sp.turn_factor as int, SCALE as int);
    lemma_wrapped_range(
        a.pos_x as int,
        clamped(stepped_sv(a, trail, w, h, sp).0, sp.min_velocity as int, sp.max_velocity as int),
    );
    lemma_wrapped_range(
        a.pos_y as int,
        clamped(stepped_sv(a, trail, w, h, sp).1, sp.min_velocity as int, sp.max_velocity as int),
    );
}

/// The steered (pre-clamp) velocity of one movement step: the three
/// sensor probes sit one sensor-distance along the travel direction and
/// along its two diagonals, and the strongest sample pulls the velocity
/// a turn-factor fraction toward its side.
pub open spec fn stepped_sv(a: Agent, trail: Seq<i64>, w: int, h: int, sp: SlimeParams) -> (
    int,
    int,
) {
    let sd = sp.sensor_dist as int;
    let vx = a.vel_x as int;
    let vy = a.vel_y as int;
    let px = a.pos_x as int;
    let py = a.pos_y as int;
    let s_f = sample_at(trail, w, h, wrapped(px, scaled(vx, sd)), wrapped(py, scaled(vy, sd)));
    let s_l = sample_at(
        trail,
        w,
        h,
        wrapped(px, scaled(vx - vy, sd)),
        wrapped(py, scaled(vy + vx, sd)),
    );
    let s_r = sample_at(
        trail,
        w,
        h,
        wrapped(px, scaled(vx + vy, sd)),
        wrapped(py, scaled(vy - vx, sd)),
    );
    let turn = sp.turn_factor as int;
    if s_l > s_f && s_l >= s_r {
        (vx - scaled(vy, turn), vy + scaled(vx, turn))
    } else if s_r > s_f && s_r > s_l {
        (vx + scaled(vy, turn), vy - scaled(vx, turn))
    } else {
        (vx, vy)
    }
}

/// A well-formed agent's cell index lies inside the grid.
pub proof fn lemma_agent_cell_range(a: Agent, w: int, h: int)
    requires
        agent_wf(a),
        0 < w <= MAX_DIM,
        0 < h <= MAX_DIM,
    ensures
        0 <= agent_cell(a, w, h) < w * h,
{
    lemma_cell_of_range(a.pos_x as int, w);
    lemma_cell_of_range(a.pos_y as int, h);
    crate::field::lemma_cell_index_in_range(w, h, cell_of(a.pos_x as int, w), cell_of(
        a.pos_y as int,
        h,
    ));
}

/// The movement fold keeps every structural invariant: grid sizes, agent
/// well-formedness, cell bounds; agents at or past `k` are untouched and
/// agents before `k` carry clamped velocities.
pub proof fn lemma_move_agents_props(
    agents: Seq<Agent>,
    trail: Seq<i64>,
    w: int,
    h: int,
    sp: SlimeParams,
    dep: int,
    perts: Seq<(i64, i64)>,
    k: int,
)
    requires
        0 <= k <= agents.len(),
        perts.len() == agents.len(),
        slime_wf(sp),
        0 <= dep <= SCALE,
        0 < w <= MAX_DIM,
        0 < h <= MAX_DIM,
        trail.len() == w * h,
        forall|i: int| 0 <= i < agents.len() ==> agent_wf(#[trigger] agents[i]),
        forall|i: int| 0 <= i < trail.len() ==> 0 <= #[trigger] trail[i] <= CELL_MAX,
    ensures
        ({
            let r = move_agents(agents, trail, w, h, sp, dep, perts, k);
            &&& r.0.len() == agents.len()
            &&& r.1.len() == trail.len()
            &&& forall|i: int| 0 <= i < agents.len() ==> agent_wf(#[trigger] r.0[i])
            &&& forall|i: int| 0 <= i < trail.len() ==> 0 <= #[trigger] r.1[i] <= CELL_MAX
            &&& forall|i: int| k <= i < agents.len() ==> #[trigger] r.0[i] == agents[i]
            &&& forall|i: int|
                0 <= i < k ==> sp.min_velocity <= #[trigger] r.0[i].vel_x <= sp.max_velocity
                    && sp.min_velocity <= r.0[i].vel_y <= sp.max_velocity
        }),
    decreases k,
{
    if k > 0 {
        lemma_move_agents_props(agents, trail, w, h, sp, dep, perts, k - 1);
        let prev = move_agents(agents, trail, w, h, sp, dep, perts, k - 1);
        let a = prev.0[k - 1];
        lemma_stepped_agent_wf(a, prev.1, w, h, sp, perts[k - 1]);
        let a2 = stepped_agent(a, prev.1, w, h, sp, perts[k - 1]);
        lemma_agent_cell_range(a2, w, h);
    }
}

/// Read the trail under a torus position.
fn sample(field: &FieldStore, x: i64, y: i64) -> (v: i64)
    requires
        field_wf(*field),
        0 <= x < SCALE,
        0 <= y < SCALE,
    ensures
        v as int == sample_at(field.trail@, field.width as int, field.height as int, x as int, y as int),
        0 <= v <= CELL_MAX,
{
    let cx = cell_index(x, field.width);
    let cy = cell_index(y, field.height);
    proof {
        crate::field::lemma_cell_index_in_range(
            field.width as int,
            field.height as int,
            cx as int,
            cy as int,
        );
    }
    field.trail[cy * field.width + cx]
}

/// Advance one agent: the moved agent and the grid cell it deposits in.
fn advance_agent(field: &FieldStore, a: Agent, sp: &SlimeParams, pert: (i64, i64)) -> (r: (
    Agent,
    usize,
))
    requires
        field_wf(*field),
        agent_wf(a),
        slime_wf(*sp),
        -SCALE <= pert.0 <= SCALE,
        -SCALE <= pert.1 <= SCALE,
    ensures
        r.0 == stepped_agent(a, field.trail@, field.width as int, field.height as int, *sp, pert),
        r.1 as int == agent_cell(r.0, field.width as int, field.height as int),
        agent_wf(r.0),
        r.1 < field.trail@.len(),
{
    let w = field.width;
    let h = field.height;
    proof {
        lemma_stepped_agent_wf(a, field.trail@, w as int, h as int, *sp, pert);
    }
    let fdx = scale_by(a.vel_x, sp.sensor_dist);
    let fdy = scale_by(a.vel_y, sp.sensor_dist);
    let ldx = scale_by(a.vel_x - a.vel_y, sp.sensor_dist);
    let ldy = scale_by(a.vel_y + a.vel_x, sp.sensor_dist);
    let rdx = scale_by(a.vel_x + a.vel_y, sp.sensor_dist);
    let rdy = scale_by(a.vel_y - a.vel_x, sp.sensor_dist);
    let s_f = sample(field, wrap_add(a.pos_x, fdx), wrap_add(a.pos_y, fdy));
    let s_l = sample(field, wrap_add(a.pos_x, ldx), wrap_add(a.pos_y, ldy));
    let s_r = sample(field, wrap_add(a.pos_x, rdx), wrap_add(a.pos_y, rdy));
    proof {
        lemma_scaled_bound(a.vel_y as int, sp.turn_factor as int, SCALE as int);
        lemma_scaled_bound(a.vel_x as int, sp.turn_factor as int, SCALE as int);
    }
    let (svx, svy): (i64, i64) = if s_l > s_f && s_l >= s_r {
        (a.vel_x - scale_by(a.vel_y, sp.turn_factor), a.vel_y + scale_by(a.vel_x, sp.turn_factor))
    } else if s_r > s_f && s_r > s_l {
        (a.vel_x + scale_by(a.vel_y, sp.turn_factor), a.vel_y - scale_by(a.vel_x, sp.turn_factor))
    } else {
        (a.vel_x, a.vel_y)
    };
    let cvx = clamp(svx, sp.min_velocity, sp.max_velocity);
    let cvy = clamp(svy, sp.min_velocity, sp.max_velocity);
    let npx = wrap_add(a.pos_x, cvx);
    let npy = wrap_add(a.pos_y, cvy);
    let fvx = clamp(cvx + pert.0, sp.min_velocity, sp.max_velocity);
    let fvy = clamp(cvy + pert.1, sp.min_velocity, sp.max_velocity);
    let a2 = Agent { pos_x: npx, pos_y: npy, vel_x: fvx, vel_y: fvy };
    let cx = cell_index(npx, w);
    let cy = cell_index(npy, h);
    proof {
        crate::field::lemma_cell_index_in_range(w as int, h as int, cx as int, cy as int);
    }
    (a2, cy * w + cx)
}

/// The movement compute pass: advance every agent once, in grid order,
/// depositing trail as it goes.
#[verifier::rlimit(60)]
pub fn update_agent_position(
    field: &mut FieldStore,
    sp: &SlimeParams,
    deposition: i64,
    perts: &Vec<(i64, i64)>,
)
    requires
        field_wf(*old(field)),
        slime_wf(*sp),
        0 <= deposition <= SCALE,
        perts@.len() == old(field).agents@.len(),
        forall|i: int|
            0 <= i < perts@.len() ==> -SCALE <= #[trigger] perts@[i].0 <= SCALE && -SCALE
                <= perts@[i].1 <= SCALE,
    ensures
        field_wf(*final(field)),
        final(field).width == old(field).width,
        final(field).height == old(field).height,
        final(field).agents@ == move_agents(
            old(field).agents@,
            old(field).trail@,
            old(field).width as int,
            old(field).height as int,
            *sp,
            deposition as int,
            perts@,
            old(field).agents@.len() as int,
        ).0,
        final(field).trail@ == move_agents(
            old(field).agents@,
            old(field).trail@,
            old(field).width as int,
            old(field).height as int,
            *sp,
            deposition as int,
            perts@,
            old(field).agents@.len() as int,
        ).1,
        forall|i: int|
            0 <= i < final(field).agents@.len() ==> {
                let a = #[trigger] final(field).agents@[i];
                sp.min_velocity <= a.vel_x <= sp.max_velocity && sp.min_velocity <= a.vel_y
                    <= sp.max_velocity
            },
{
    let ghost w = old(field).width as int;
    let ghost h = old(field).height as int;
    let n = field.agents.len();
    let mut k: usize = 0;
    while k < n
        invariant
            k <= n,
            n == old(field).agents@.len(),
            perts@.len() == n,
            slime_wf(*sp),
            0 <= deposition <= SCALE,
            forall|i: int|
                0 <= i < n ==> -SCALE <= #[trigger] perts@[i].0 <= SCALE && -SCALE <= perts@[i].1
                    <= SCALE,
            field_wf(*old(field)),
            w == old(field).width as int,
            h == old(field).height as int,
            field.width == old(field).width,
            field.height == old(field).height,
            field.agents@ == move_agents(
                old(field).agents@,
                old(field).trail@,
                w,
                h,
                *sp,
                deposition as int,
                perts@,
                k as int,
            ).0,
            field.trail@ == move_agents(
                old(field).agents@,
                old(field).trail@,
                w,
                h,
                *sp,
                deposition as int,
                perts@,
                k as int,
            ).1,
        decreases n - k,
    {
        proof {
            lemma_move_agents_props(
                old(field).agents@,
                old(field).trail@,
                w,
                h,
                *sp,
                deposition as int,
                perts@,
                k as int,
            );
        }
        let a = field.agents[k];
        let pert = perts[k];
        let (a2, di) = advance_agent(field, a, sp, pert);
        let t0 = field.trail[di];
        let nv: i64 = if t0 + deposition <= CELL_MAX {
            t0 + deposition
        } else {
            CELL_MAX
        };
        field.agents.set(k, a2);
        field.trail.set(di, nv);
        proof {
            let prev = move_agents(
                old(field).agents@,
                old(field).trail@,
                w,
                h,
                *sp,
                deposition as int,
                perts@,
                k as int,
            );
            let next = move_agents(
                old(field).agents@,
                old(field).trail@,
                w,
                h,
                *sp,
                deposition as int,
                perts@,
                k as int + 1,
            );
            let step = agent_step(prev.0[k as int], prev.1, w, h, *sp, deposition as int, perts@[k as int]);
            assert(next.0 == prev.0.update(k as int, step.0));
            assert(next.1 == step.1);
            assert(field.agents@ == next.0);
            assert(field.trail@ == next.1);
        }
        k = k + 1;
    }
    proof {
        lemma_move_agents_props(
            old(field).agents@,
            old(field).trail@,
            w,
            h,
            *sp,
            deposition as int,
            perts@,
            n as int,
        );
    }
}

/// With zero velocity there is no steering bias to act on — the probes
/// all sample the agent's own cell — so one movement step leaves the
/// position exactly where it was; the new velocity is the perturbation,
/// clamped into the configured bounds.
pub proof fn lemma_still_agent_stays_put(
    a: Agent,
    trail: Seq<i64>,
    w: int,
    h: int,
    sp: SlimeParams,
    pert: (i64, i64),
)
    requires
        agent_wf(a),
        slime_wf(sp),
        a.vel_x == 0,
        a.vel_y == 0,
    ensures
        stepped_agent(a, trail, w, h, sp, pert).pos_x == a.pos_x,
        stepped_agent(a, trail, w, h, sp, pert).pos_y == a.pos_y,
        stepped_agent(a, trail, w, h, sp, pert).vel_x == clamped(
            pert.0 as int,
            sp.min_velocity as int,
            sp.max_velocity as int,
        ),
        stepped_agent(a, trail, w, h, sp, pert).vel_y == clamped(
            pert.1 as int,
            sp.min_velocity as int,
            sp.max_velocity as int,
        ),
        sp.min_velocity <= stepped_agent(a, trail, w, h, sp, pert).vel_x <= sp.max_velocity,
        sp.min_velocity <= stepped_agent(a, trail, w, h, sp, pert).vel_y <= sp.max_velocity,
{
    let s = SCALE as int;
    assert(scaled(0, sp.sensor_dist as int) == 0) by {
        vstd::arithmetic::div_mod::lemma_div_of0(s);
    }
    crate::fixed::lemma_wrapped_identity(a.pos_x as int);
    crate::fixed::lemma_wrapped_identity(a.pos_y as int);
}

/// Mean of a cell's four torus neighbours, rounded down.
pub open spec fn neighbor_avg(t: Seq<i64>, w: int, h: int, i: int) -> int {
    (t[left_of(i, w)] as int + t[right_of(i, w)] as int + t[up_of(i, w, h)] as int + t[down_of(
        i,
        w,
        h,
    )] as int) / 4
}

/// One trail cell after one diffusion-and-decay step: blend the cell
/// with its neighbourhood mean by the diffusion factor, then keep the
/// decay fraction of the result.
pub open spec fn cell_next(t: Seq<i64>, w: int, h: int, df: int, dc: int, i: int) -> int {
    let blend = ((SCALE - df) * (t[i] as int) + df * neighbor_avg(t, w, h, i)) / (SCALE as int);
    blend * dc / (SCALE as int)
}

/// The whole trail grid after one trail-kernel step. Every cell reads
/// the previous frame's field: the pass is double-buffered.
pub open spec fn trail_next(t: Seq<i64>, w: int, h: int, df: int, dc: int) -> Seq<i64> {
    Seq::new((w * h) as nat, |i: int| cell_next(t, w, h, df, dc, i) as i64)
}

/// Total intensity held by the trail grid.
pub open spec fn trail_total(t: Seq<i64>) -> int {
    sum_range(0, t.len() as int, |i: int| t[i] as int)
}

/// All four neighbour indices of a grid cell lie inside the grid.
pub proof fn lemma_neighbors_in_range(i: int, w: int, h: int)
    requires
        0 < w,
        0 < h,
        0 <= i < w * h,
    ensures
        0 <= row_of_cell(i, w) < h,
        0 <= col_of_cell(i, w) < w,
        0 <= left_of(i, w) < w * h,
        0 <= right_of(i, w) < w * h,
        0 <= up_of(i, w, h) < w * h,
        0 <= down_of(i, w, h) < w * h,
{
    vstd::arithmetic::div_mod::lemma_mod_division_less_than_divisor(i, w);
    vstd::arithmetic::div_mod::lemma_div_pos_is_pos(i, w);
    assert(i < w * h);
    vstd::arithmetic::div_mod::lemma_multiply_divide_lt(i, w, h);
    let r = i / w;
    let c = i % w;
    vstd::arithmetic::div_mod::lemma_mod_division_less_than_divisor(c + 1, w);
    vstd::arithmetic::div_mod::lemma_mod_division_less_than_divisor(c + w - 1, w);
    vstd::arithmetic::div_mod::lemma_mod_division_less_than_divisor(r + 1, h);
    vstd::arithmetic::div_mod::lemma_mod_division_less_than_divisor(r + h - 1, h);
    crate::field::lemma_cell_index_in_range_wide(w, h, (c + 1) % w, r);
    crate::field::lemma_cell_index_in_range_wide(w, h, (c + w - 1) % w, r);
    crate::field::lemma_cell_index_in_range_wide(w, h, c, (r + 1) % h);
    crate::field::lemma_cell_index_in_range_wide(w, h, c, (r + h - 1) % h);
}

/// Row of a row-major index (shared with the grid lemmas).
pub open spec fn row_of_cell(i: int, w: int) -> int {
    i / w
}

/// Column of a row-major index.
pub open spec fn col_of_cell(i: int, w: int) -> int {
    i % w
}

/// One stepped trail cell stays inside `[0, CELL_MAX]`.
pub proof fn lemma_cell_next_bounds(t: Seq<i64>, w: int, h: int, df: int, dc: int, i: int)
    requires
        0 < w,
        0 < h,
        0 <= i < w * h,
        t.len() == w * h,
        forall|j: int| 0 <= j < t.len() ==> 0 <= #[trigger] t[j] <= CELL_MAX,
        0 <= df <= SCALE,
        0 <= dc < SCALE,
    ensures
        0 <= cell_next(t, w, h, df, dc, i) <= CELL_MAX,
{
    let s = SCALE as int;
    let cm = CELL_MAX as int;
    lemma_neighbors_in_range(i, w, h);
    let q = t[left_of(i, w)] as int + t[right_of(i, w)] as int + t[up_of(i, w, h)] as int + t[
        down_of(i, w, h)
    ] as int;
    assert(0 <= q <= 4 * cm);
    let na = neighbor_avg(t, w, h, i);
    vstd::arithmetic::div_mod::lemma_div_pos_is_pos(q, 4);
    vstd::arithmetic::div_mod::lemma_div_is_ordered(q, 4 * cm, 4);
    vstd::arithmetic::div_mod::lemma_div_multiples_vanish(cm, 4);
    assert(na <= cm);
    let num = (s - df) * (t[i] as int) + df * na;
    assert(0 <= num <= s * cm) by (nonlinear_arith)
        requires
            num == (s - df) * (t[i] as int) + df * na,
            0 <= t[i] <= cm,
            0 <= na <= cm,
            0 <= df <= s,
            0 < s,
    ;
    let blend = num / s;
    vstd::arithmetic::div_mod::lemma_div_pos_is_pos(num, s);
    vstd::arithmetic::div_mod::lemma_div_is_ordered(num, s * cm, s);
    vstd::arithmetic::div_mod::lemma_div_multiples_vanish(cm, s);
    assert(blend <= cm);
    assert(0 <= blend * dc <= blend * s) by (nonlinear_arith)
        requires
            0 <= blend,
            0 <= dc <= s,
    ;
    vstd::arithmetic::div_mod::lemma_div_pos_is_pos(blend * dc, s);
    vstd::arithmetic::div_mod::lemma_div_is_ordered(blend * dc, blend * s, s);
    vstd::arithmetic::div_mod::lemma_div_multiples_vanish(blend, s);
    assert(blend * s == s * blend) by (nonlinear_arith);
    assert(cell_next(t, w, h, df, dc, i) <= blend);
}

/// The trail kernel never creates intensity: without agent deposition
/// the grid's total after one diffusion-and-decay step is at most the
/// total before it. Diffusion only moves intensity between neighbours
/// (a torus shift is a permutation) and decay only shrinks it.
pub proof fn lemma_trail_total_nonincreasing(t: Seq<i64>, w: int, h: int, df: int, dc: int)
    requires
        0 < w <= MAX_DIM,
        0 < h <= MAX_DIM,
        t.len() == w * h,
        forall|j: int| 0 <= j < t.len() ==> 0 <= #[trigger] t[j] <= CELL_MAX,
        0 <= df <= SCALE,
        0 <= dc < SCALE,
    ensures
        trail_total(trail_next(t, w, h, df, dc)) <= trail_total(t),
{
    let s = SCALE as int;
    let n = w * h;
    let f = |i: int| t[i] as int;
    let lf = |i: int| t[left_of(i, w)] as int;
    let rf = |i: int| t[right_of(i, w)] as int;
    let uf = |i: int| t[up_of(i, w, h)] as int;
    let dn = |i: int| t[down_of(i, w, h)] as int;
    assert forall|i: int| 0 <= i < n implies #[trigger] lf(i) == f(left_of(i, w)) && rf(i) == f(
        right_of(i, w),
    ) && uf(i) == f(up_of(i, w, h)) && dn(i) == f(down_of(i, w, h)) by {}
    lemma_sum_shift_left(w, h, f, lf);
    lemma_sum_shift_right(w, h, f, rf);
    lemma_sum_shift_up(w, h, f, uf);
    lemma_sum_shift_down(w, h, f, dn);
    let s1 = |i: int| lf(i) + rf(i);
    let s2 = |i: int| uf(i) + dn(i);
    let q = |i: int| s1(i) + s2(i);
    lemma_sum_range_linear(0, n, 1, 1, lf, rf, s1);
    lemma_sum_range_linear(0, n, 1, 1, uf, dn, s2);
    lemma_sum_range_linear(0, n, 1, 1, s1, s2, q);
    assert(sum_range(0, n, q) == 4 * sum_range(0, n, f));
    let na = |i: int| q(i) / 4;
    let na4 = |i: int| 4 * na(i);
    lemma_sum_range_linear(0, n, 4, 0, na, f, na4);
    assert forall|i: int| 0 <= i < n implies #[trigger] na4(i) <= #[trigger] q(i) by {
        vstd::arithmetic::div_mod::lemma_fundamental_div_mod(q(i), 4);
        vstd::arithmetic::div_mod::lemma_mod_division_less_than_divisor(q(i), 4);
    }
    lemma_sum_range_le(0, n, na4, q);
    assert(sum_range(0, n, na) <= sum_range(0, n, f));
    let num = |i: int| (s - df) * f(i) + df * na(i);
    lemma_sum_range_linear(0, n, s - df, df, f, na, num);
    assert(df * sum_range(0, n, na) <= df * sum_range(0, n, f)) by (nonlinear_arith)
        requires
            0 <= df,
            sum_range(0, n, na) <= sum_range(0, n, f),
    ;
    assert((s - df) * sum_range(0, n, f) + df * sum_range(0, n, f) == s * sum_range(0, n, f))
        by (nonlinear_arith);
    assert(sum_range(0, n, num) <= s * sum_range(0, n, f));
    let bl = |i: int| num(i) / s;
    let bls = |i: int| s * bl(i);
    lemma_sum_range_linear(0, n, s, 0, bl, f, bls);
    assert forall|i: int| 0 <= i < n implies #[trigger] bls(i) <= #[trigger] num(i) by {
        vstd::arithmetic::div_mod::lemma_fundamental_div_mod(num(i), s);
        vstd::arithmetic::div_mod::lemma_mod_division_less_than_divisor(num(i), s);
    }
    lemma_sum_range_le(0, n, bls, num);
    assert(s * sum_range(0, n, bl) <= s * sum_range(0, n, f));
    assert(sum_range(0, n, bl) <= sum_range(0, n, f));
    let nx = |i: int| bl(i) * dc / s;
    assert forall|i: int| 0 <= i < n implies #[trigger] nx(i) <= #[trigger] bl(i) by {
        lemma_neighbors_in_range(i, w, h);
        assert(0 <= q(i));
        vstd::arithmetic::div_mod::lemma_div_pos_is_pos(q(i), 4);
        assert(0 <= num(i)) by (nonlinear_arith)
            requires
                0 <= f(i),
                0 <= na(i),
                0 <= df <= s,
                num(i) == (s - df) * f(i) + df * na(i),
        ;
        vstd::arithmetic::div_mod::lemma_div_pos_is_pos(num(i), s);
        assert(0 <= bl(i) * dc <= bl(i) * s) by (nonlinear_arith)
            requires
                0 <= bl(i),
                0 <= dc <= s,
        ;
        vstd::arithmetic::div_mod::lemma_div_is_ordered(bl(i) * dc, bl(i) * s, s);
        vstd::arithmetic::div_mod::lemma_div_multiples_vanish(bl(i), s);
        assert(bl(i) * s == s * bl(i)) by (nonlinear_arith);
    }
    lemma_sum_range_le(0, n, nx, bl);
    let t2 = trail_next(t, w, h, df, dc);
    let f2 = |i: int| t2[i] as int;
    assert forall|i: int| 0 <= i < n implies #[trigger] f2(i) == #[trigger] nx(i) by {
        lemma_cell_next_bounds(t, w, h, df, dc, i);
        assert(t2[i] == cell_next(t, w, h, df, dc, i) as i64);
    }
    lemma_sum_range_eq(0, n, f2, nx);
    assert(trail_total(t2) == sum_range(0, n, f2)) by {
        lemma_sum_range_eq(0, n, |i: int| t2[i] as int, f2);
    }
    assert(trail_total(t) == sum_range(0, n, f)) by {
        lemma_sum_range_eq(0, n, |i: int| t[i] as int, f);
    }
}

/// The trail compute pass: diffuse and decay every cell, reading only
/// the previous frame's field. The grid's total intensity never grows.
pub fn update_pheremone_trails(field: &mut FieldStore, pp: &PheremoneParams)
    requires
        field_wf(*old(field)),
        pheremone_wf(*pp),
    ensures
        field_wf(*final(field)),
        final(field).width == old(field).width,
        final(field).height == old(field).height,
        final(field).agents@ == old(field).agents@,
        final(field).trail@ == trail_next(
            old(field).trail@,
            old(field).width as int,
            old(field).height as int,
            pp.diffusion_factor as int,
            pp.decay_factor as int,
        ),
        trail_total(final(field).trail@) <= trail_total(old(field).trail@),
{
    let ghost wi = old(field).width as int;
    let ghost hi = old(field).height as int;
    let ghost df = pp.diffusion_factor as int;
    let ghost dc = pp.decay_factor as int;
    let w = field.width;
    let h = field.height;
    let cells = field.trail.len();
    let mut out: Vec<i64> = Vec::new();
    let mut i: usize = 0;
    while i < cells
        invariant
            i <= cells,
            field_wf(*field),
            *field == *old(field),
            wi == field.width as int,
            hi == field.height as int,
            df == pp.diffusion_factor as int,
            dc == pp.decay_factor as int,
            pheremone_wf(*pp),
            w == field.width,
            h == field.height,
            cells == field.trail@.len(),
            cells == wi * hi,
            out@.len() == i,
            forall|j: int|
                0 <= j < i ==> #[trigger] out@[j] == cell_next(
                    field.trail@,
                    wi,
                    hi,
                    df,
                    dc,
                    j,
                ) as i64,
        decreases cells - i,
    {
        let c: usize = i % w;
        let r: usize = i / w;
        proof {
            lemma_neighbors_in_range(i as int, wi, hi);
            assert(r as int == row_of_cell(i as int, wi));
            assert(c as int == col_of_cell(i as int, wi));
            crate::field::lemma_cell_index_in_range(wi, hi, 0, 0);
            assert(left_of(i as int, wi) < wi * hi);
            assert(right_of(i as int, wi) < wi * hi);
            assert(up_of(i as int, wi, hi) < wi * hi);
            assert(down_of(i as int, wi, hi) < wi * hi);
        }
        let lidx: usize = r * w + (c + w - 1) % w;
        let ridx: usize = r * w + (c + 1) % w;
        let uidx: usize = ((r + h - 1) % h) * w + c;
        let didx: usize = ((r + 1) % h) * w + c;
        let tl = field.trail[lidx];
        let tr = field.trail[ridx];
        let tu = field.trail[uidx];
        let td = field.trail[didx];
        let tc = field.trail[i];
        let q: i64 = tl + tr + tu + td;
        let navg: i64 = q / 4;
        proof {
            lemma_cell_next_bounds(field.trail@, wi, hi, df, dc, i as int);
            assert(0 <= navg <= CELL_MAX);
            assert((SCALE - pp.diffusion_factor) * tc <= SCALE * (CELL_MAX as i64))
                by (nonlinear_arith)
                requires
                    0 <= tc <= CELL_MAX,
                    0 <= pp.diffusion_factor <= SCALE,
            ;
            assert(0 <= (SCALE - pp.diffusion_factor) * tc) by (nonlinear_arith)
                requires
                    0 <= tc,
                    pp.diffusion_factor <= SCALE,
            ;
            assert(0 <= pp.diffusion_factor * navg <= SCALE * (CELL_MAX as i64))
                by (nonlinear_arith)
                requires
                    0 <= navg <= CELL_MAX,
                    0 <= pp.diffusion_factor <= SCALE,
            ;
            assert((SCALE - pp.diffusion_factor) * tc + pp.diffusion_factor * navg <= SCALE * (
            CELL_MAX as i64)) by (nonlinear_arith)
                requires
                    0 <= tc <= CELL_MAX,
                    0 <= navg <= CELL_MAX,
                    0 <= pp.diffusion_factor <= SCALE,
            ;
        }
        let blend: i64 = ((SCALE - pp.diffusion_factor) * tc + pp.diffusion_factor * navg)
            / SCALE;
        proof {
            assert(blend == ((SCALE as int - df) * (tc as int) + df * (navg as int)) / (
            SCALE as int));
            assert(0 <= blend <= CELL_MAX) by {
                vstd::arithmetic::div_mod::lemma_div_pos_is_pos(
                    (SCALE as int - df) * (tc as int) + df * (navg as int),
                    SCALE as int,
                );
                vstd::arithmetic::div_mod::lemma_div_is_ordered(
                    (SCALE as int - df) * (tc as int) + df * (navg as int),
                    (SCALE as int) * (CELL_MAX as int),
                    SCALE as int,
                );
                vstd::arithmetic::div_mod::lemma_div_multiples_vanish(
                    CELL_MAX as int,
                    SCALE as int,
                );
            }
            assert(0 <= blend * pp.decay_factor <= (CELL_MAX as i64) * SCALE)
                by (nonlinear_arith)
                requires
                    0 <= blend <= CELL_MAX,
                    0 <= pp.decay_factor <= SCALE,
            ;
        }
        let nv: i64 = blend * pp.decay_factor / SCALE;
        proof {
            assert(nv == cell_next(field.trail@, wi, hi, df, dc, i as int));
        }
        out.push(nv);
        i = i + 1;
    }
    proof {
        assert(out@ =~= trail_next(field.trail@, wi, hi, df, dc));
        lemma_trail_total_nonincreasing(field.trail@, wi, hi, df, dc);
        assert forall|j: int| 0 <= j < out@.len() implies 0 <= #[trigger] out@[j] <= CELL_MAX by {
            lemma_cell_next_bounds(field.trail@, wi, hi, df, dc, j);
        }
    }
    field.trail = out;
}

/// The trail after stamping attractor seeds: each in-range point's cell
/// is overwritten with the seed intensity; an out-of-range point is
/// skipped; nothing blends.
pub open spec fn stamped(t: Seq<i64>, w: int, h: int, pts: Seq<FoodPoint>, amount: i64) -> Seq<
    i64,
>
    decreases pts.len(),
{
    if pts.len() == 0 {
        t
    } else {
        let prev = stamped(t, w, h, pts.drop_last(), amount);
        let p = pts.last();
        if p.cell_x < w && p.cell_y < h {
            prev.update(p.cell_y * w + p.cell_x, amount)
        } else {
            prev
        }
    }
}

/// Stamping keeps the grid size and the cell bounds.
pub proof fn lemma_stamped_props(t: Seq<i64>, w: int, h: int, pts: Seq<FoodPoint>, amount: i64)
    requires
        0 < w <= MAX_DIM,
        0 < h <= MAX_DIM,
        t.len() == w * h,
        forall|j: int| 0 <= j < t.len() ==> 0 <= #[trigger] t[j] <= CELL_MAX,
        0 <= amount <= CELL_MAX,
    ensures
        stamped(t, w, h, pts, amount).len() == t.len(),
        forall|j: int|
            0 <= j < t.len() ==> 0 <= #[trigger] stamped(t, w, h, pts, amount)[j] <= CELL_MAX,
    decreases pts.len(),
{
    if pts.len() > 0 {
        lemma_stamped_props(t, w, h, pts.drop_last(), amount);
        let p = pts.last();
        if p.cell_x < w && p.cell_y < h {
            crate::field::lemma_cell_index_in_range_wide(w, h, p.cell_x as int, p.cell_y as int);
        }
    }
}

/// The food compute pass: overwrite the chosen cells with the seed
/// intensity.
pub fn update_food(field: &mut FieldStore, pts: &Vec<FoodPoint>, amount: i64)
    requires
        field_wf(*old(field)),
        0 <= amount <= CELL_MAX,
    ensures
        field_wf(*final(field)),
        final(field).width == old(field).width,
        final(field).height == old(field).height,
        final(field).agents@ == old(field).agents@,
        final(field).trail@ == stamped(
            old(field).trail@,
            old(field).width as int,
            old(field).height as int,
            pts@,
            amount,
        ),
{
    let ghost wi = old(field).width as int;
    let ghost hi = old(field).height as int;
    let n = pts.len();
    let mut k: usize = 0;
    while k < n
        invariant
            k <= n,
            n == pts@.len(),
            field_wf(*old(field)),
            0 <= amount <= CELL_MAX,
            wi == field.width as int,
            hi == field.height as int,
            field.width == old(field).width,
            field.height == old(field).height,
            field.agents@ == old(field).agents@,
            field.trail@ == stamped(old(field).trail@, wi, hi, pts@.subrange(0, k as int), amount),
        decreases n - k,
    {
        proof {
            lemma_stamped_props(old(field).trail@, wi, hi, pts@.subrange(0, k as int), amount);
        }
        let p = pts[k];
        if p.cell_x < field.width && p.cell_y < field.height {
            proof {
                crate::field::lemma_cell_index_in_range(wi, hi, p.cell_x as int, p.cell_y as int);
            }
            let idx: usize = p.cell_y * field.width + p.cell_x;
            field.trail.set(idx, amount);
        }
        proof {
            let pre = pts@.subrange(0, k as int);
            let cur = pts@.subrange(0, k as int + 1);
            assert(cur.drop_last() =~= pre);
            assert(cur.last() == pts@[k as int]);
            assert(field.trail@ == stamped(old(field).trail@, wi, hi, cur, amount));
        }
        k = k + 1;
    }
    proof {
        assert(pts@.subrange(0, n as int) =~= pts@);
        lemma_stamped_props(old(field).trail@, wi, hi, pts@, amount);
    }
}

/// The attractor coordinates the simulation starts with, before the
/// first timed regeneration: four fixed fractions of the field.
pub fn initial_food_coords(width: usize, height: usize) -> (pts: Vec<FoodPoint>)
    requires
        0 < width <= MAX_DIM,
        0 < height <= MAX_DIM,
    ensures
        pts@.len() == 4,
        pts@[0].cell_x as int == width as int / 3 && pts@[0].cell_y as int == height as int / 4,
        pts@[1].cell_x as int == width as int / 5 * 2 && pts@[1].cell_y as int == height as int / 4
            * 3,
        pts@[2].cell_x as int == width as int / 4 * 2 && pts@[2].cell_y as int == height as int / 3
            * 2,
        pts@[3].cell_x as int == width as int / 7 * 3 && pts@[3].cell_y as int == height as int
            / 11 * 2,
    {
    let mut pts: Vec<FoodPoint> = Vec::new();
    pts.push(FoodPoint { cell_x: width / 3, cell_y: height / 4 });
    pts.push(FoodPoint { cell_x: width / 5 * 2, cell_y: height / 4 * 3 });
    pts.push(FoodPoint { cell_x: width / 4 * 2, cell_y: height / 3 * 2 });
    pts.push(FoodPoint { cell_x: width / 7 * 3, cell_y: height / 11 * 2 });
    pts
}

/// Draw a fresh set of attractor coordinates, each uniform over the
/// field — mirroring the source ranges, a coordinate may land one past
/// the last cell, which the stamp pass skips.
pub fn generate_food_coords(width: usize, height: usize) -> (pts: Vec<FoodPoint>)
    requires
        0 < width <= MAX_DIM,
        0 < height <= MAX_DIM,
    ensures
        pts@.len() == 3,
        forall|j: int|
            0 <= j < 3 ==> #[trigger] pts@[j].cell_x <= width && pts@[j].cell_y <= height,
{
    let mut pts: Vec<FoodPoint> = Vec::new();
    let mut k: usize = 0;
    while k < 3
        invariant
            k <= 3,
            0 < width <= MAX_DIM,
            0 < height <= MAX_DIM,
            pts@.len() == k,
            forall|j: int|
                0 <= j < k ==> #[trigger] pts@[j].cell_x <= width && pts@[j].cell_y <= height,
        decreases 3 - k,
    {
        let x = random_i64_between(0, width as i64);
        let y = random_i64_between(0, height as i64);
        pts.push(FoodPoint { cell_x: x as usize, cell_y: y as usize });
        k = k + 1;
    }
    pts
}

} // verus!
