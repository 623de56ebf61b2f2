//! Field store: the two persistent grids of the simulation.
//!
//! The agent grid holds one [`Agent`] per slot — position and velocity in
//! normalized torus coordinates `[0, SCALE)` — and the pheromone trail is
//! a dense row-major grid of non-negative bounded intensities, one cell
//! per simulation pixel. Resolution is fixed for the life of the store:
//! there is no partial resize, a new size means a fresh [`allocate`].

use vstd::prelude::*;

use crate::fixed::{CELL_MAX, SCALE};
use crate::rng::random_i64_between;

verus! {

/// Largest accepted field dimension; keeps every index computation far
/// from machine limits.
pub const MAX_DIM: usize = 30_000;

/// One simulated organism: a point particle on the torus.
#[derive(Clone, Copy, Debug, PartialEq, Eq, Structural)]
pub struct Agent {
    pub pos_x: i64,
    pub pos_y: i64,
    pub vel_x: i64,
    pub vel_y: i64,
}

/// An attractor coordinate, in cells. Draws mirror the source ranges and
/// may land one past the last cell; stamping skips such a point.
#[derive(Clone, Copy, Debug, PartialEq, Eq, Structural)]
pub struct FoodPoint {
    pub cell_x: usize,
    pub cell_y: usize,
}

/// Position on the torus, velocity within one whole unit per frame.
pub open spec fn agent_wf(a: Agent) -> bool {
    &&& 0 <= a.pos_x < SCALE
    &&& 0 <= a.pos_y < SCALE
    &&& -SCALE <= a.vel_x <= SCALE
    &&& -SCALE <= a.vel_y <= SCALE
}

/// The two grids, exclusively owned by the frame scheduler.
pub struct FieldStore {
    pub width: usize,
    pub height: usize,
    pub trail: Vec<i64>,
    pub agents: Vec<Agent>,
}

/// Structural invariant of the field store: plausible resolution, a trail
/// cell for every pixel, every intensity in `[0, CELL_MAX]`, and every
/// agent on the torus.
pub open spec fn field_wf(f: FieldStore) -> bool {
    &&& 0 < f.width <= MAX_DIM
    &&& 0 < f.height <= MAX_DIM
    &&& f.trail@.len() == f.width * f.height
    &&& forall|i: int| 0 <= i < f.trail@.len() ==> 0 <= #[trigger] f.trail@[i] <= CELL_MAX
    &&& forall|i: int| 0 <= i < f.agents@.len() ==> agent_wf(#[trigger] f.agents@[i])
}

/// Deterministic start position of agent `i`: a five-slot cycle spread
/// over the field.
pub open spec fn start_pos(i: int) -> (int, int) {
    if i % 5 == 0 {
        (890_000, 730_000)
    } else if i % 5 == 1 {
        (180_000, 860_000)
    } else if i % 5 == 2 {
        (540_000, 470_000)
    } else if i % 5 == 3 {
        (730_000, 170_000)
    } else {
        (270_000, 330_000)
    }
}

pub const INIT_VEL_X_BOUND: i64 = 2_000;

pub const INIT_VEL_Y_BOUND: i64 = 4_000;

impl FieldStore {
    /// Allocate both grids at a fixed resolution: a zeroed trail and
    /// `agent_count` agents resting at the field's centre.
    pub fn allocate(width: usize, height: usize, agent_count: usize) -> (f: FieldStore)
        requires
            0 < width <= MAX_DIM,
            0 < height <= MAX_DIM,
        ensures
            field_wf(f),
            f.width == width,
            f.height == height,
            f.trail@.len() == width * height,
            forall|i: int| 0 <= i < f.trail@.len() ==> #[trigger] f.trail@[i] == 0,
            f.agents@.len() == agent_count,
            forall|i: int|
                0 <= i < agent_count ==> #[trigger] f.agents@[i] == (Agent {
                    pos_x: 500_000,
                    pos_y: 500_000,
                    vel_x: 0,
                    vel_y: 0,
                }),
    {
        proof {
            assert(width * height <= 900_000_000) by (nonlinear_arith)
                requires
                    width <= 30_000,
                    height <= 30_000,
            ;
        }
        let cells: usize = width * height;
        let mut trail: Vec<i64> = Vec::new();
        let mut i: usize = 0;
        while i < cells
            invariant
                i <= cells,
                trail@.len() == i,
                forall|j: int| 0 <= j < i ==> #[trigger] trail@[j] == 0,
            decreases cells - i,
        {
            trail.push(0);
            i = i + 1;
        }
        let rest = Agent { pos_x: SCALE / 2, pos_y: SCALE / 2, vel_x: 0, vel_y: 0 };
        let mut agents: Vec<Agent> = Vec::new();
        let mut k: usize = 0;
        while k < agent_count
            invariant
                k <= agent_count,
                agents@.len() == k,
                forall|j: int| 0 <= j < k ==> #[trigger] agents@[j] == rest,
            decreases agent_count - k,
        {
            agents.push(rest);
            k = k + 1;
        }
        FieldStore { width, height, trail, agents }
    }

    /// Reinitialize every agent for a simulation start: deterministic
    /// five-cycle positions and a small random velocity, drawn within the
    /// startup bounds.
    pub fn init_agents_data(&mut self)
        ensures
            final(self).width == old(self).width,
            final(self).height == old(self).height,
            final(self).trail@ == old(self).trail@,
            final(self).agents@.len() == old(self).agents@.len(),
            forall|i: int|
                0 <= i < final(self).agents@.len() ==> {
                    let a = #[trigger] final(self).agents@[i];
                    &&& (a.pos_x as int, a.pos_y as int) == start_pos(i)
                    &&& -INIT_VEL_X_BOUND <= a.vel_x <= INIT_VEL_X_BOUND
                    &&& -INIT_VEL_Y_BOUND <= a.vel_y <= INIT_VEL_Y_BOUND
                },
            forall|i: int|
                0 <= i < final(self).agents@.len() ==> agent_wf(#[trigger] final(self).agents@[i]),
    {
        let n = self.agents.len();
        let mut k: usize = 0;
        while k < n
            invariant
                k <= n,
                self.agents@.len() == n,
                self.width == old(self).width,
                self.height == old(self).height,
                self.trail@ == old(self).trail@,
                forall|i: int|
                    k <= i < n ==> #[trigger] self.agents@[i] == old(self).agents@[i],
                forall|i: int|
                    0 <= i < k ==> {
                        let a = #[trigger] self.agents@[i];
                        &&& (a.pos_x as int, a.pos_y as int) == start_pos(i)
                        &&& -INIT_VEL_X_BOUND <= a.vel_x <= INIT_VEL_X_BOUND
                        &&& -INIT_VEL_Y_BOUND <= a.vel_y <= INIT_VEL_Y_BOUND
                        &&& agent_wf(a)
                    },
            decreases n - k,
        {
            let rem: usize = k % 5;
            let (px, py): (i64, i64) = if rem == 0 {
                (890_000, 730_000)
            } else if rem == 1 {
                (180_000, 860_000)
            } else if rem == 2 {
                (540_000, 470_000)
            } else if rem == 3 {
                (730_000, 170_000)
            } else {
                (270_000, 330_000)
            };
            let vx = random_i64_between(-INIT_VEL_X_BOUND, INIT_VEL_X_BOUND);
            let vy = random_i64_between(-INIT_VEL_Y_BOUND, INIT_VEL_Y_BOUND);
            let a = Agent { pos_x: px, pos_y: py, vel_x: vx, vel_y: vy };
            self.agents.set(k, a);
            k = k + 1;
        }
    }

    /// Intensity of one trail cell.
    pub fn trail_at(&self, cell_x: usize, cell_y: usize) -> (v: i64)
        requires
            field_wf(*self),
            cell_x < self.width,
            cell_y < self.height,
        ensures
            v == self.trail@[cell_y * self.width + cell_x],
            0 <= v <= CELL_MAX,
    {
        proof {
            lemma_cell_index_in_range(
                self.width as int,
                self.height as int,
                cell_x as int,
                cell_y as int,
            );
        }
        self.trail[cell_y * self.width + cell_x]
    }

    /// Overwrite one trail cell.
    pub fn set_trail(&mut self, cell_x: usize, cell_y: usize, v: i64)
        requires
            field_wf(*old(self)),
            cell_x < old(self).width,
            cell_y < old(self).height,
            0 <= v <= CELL_MAX,
        ensures
            field_wf(*final(self)),
            final(self).width == old(self).width,
            final(self).height == old(self).height,
            final(self).agents@ == old(self).agents@,
            final(self).trail@ == old(self).trail@.update(
                cell_y * old(self).width + cell_x,
                v,
            ),
    {
        proof {
            lemma_cell_index_in_range(
                self.width as int,
                self.height as int,
                cell_x as int,
                cell_y as int,
            );
        }
        let idx: usize = cell_y * self.width + cell_x;
        self.trail.set(idx, v);
    }

    /// The agent in one grid slot.
    pub fn agent_at(&self, i: usize) -> (a: Agent)
        requires
            i < self.agents@.len(),
        ensures
            a == self.agents@[i as int],
    {
        self.agents[i]
    }

    /// Overwrite one agent slot.
    pub fn set_agent(&mut self, i: usize, a: Agent)
        requires
            field_wf(*old(self)),
            i < old(self).agents@.len(),
            agent_wf(a),
        ensures
            field_wf(*final(self)),
            final(self).width == old(self).width,
            final(self).height == old(self).height,
            final(self).trail@ == old(self).trail@,
            final(self).agents@ == old(self).agents@.update(i as int, a),
    {
        self.agents.set(i, a);
    }
}

/// A cell's row-major index lies inside the grid, for any grid size.
pub proof fn lemma_cell_index_in_range_wide(w: int, h: int, cx: int, cy: int)
    requires
        0 < w,
        0 < h,
        0 <= cx < w,
        0 <= cy < h,
    ensures
        0 <= cy * w + cx < w * h,
{
    assert(cy * w + cx < w * h) by (nonlinear_arith)
        requires
            0 < w,
            0 < h,
            0 <= cx < w,
            0 <= cy < h,
    ;
    assert(0 <= cy * w) by (nonlinear_arith)
        requires
            0 <= cy,
            0 < w,
    ;
}

/// A cell's row-major index lies inside the grid.
pub proof fn lemma_cell_index_in_range(w: int, h: int, cx: int, cy: int)
    requires
        0 < w <= MAX_DIM,
        0 < h <= MAX_DIM,
        0 <= cx < w,
        0 <= cy < h,
    ensures
        0 <= cy * w + cx < w * h,
        w * h <= 900_000_000,
{
    assert(w * h <= 900_000_000) by (nonlinear_arith)
        requires
            0 < w <= 30_000,
            0 < h <= 30_000,
    ;
    assert(cy * w + cx < w * h) by (nonlinear_arith)
        requires
            0 < w,
            0 < h,
            0 <= cx < w,
            0 <= cy < h,
    ;
    assert(0 <= cy * w) by (nonlinear_arith)
        requires
            0 <= cy,
            0 < w,
    ;
}

} // verus!
