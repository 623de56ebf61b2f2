//! Device-visible parameter storage.
//!
//! The kernels consume each parameter group as a fixed-layout record of
//! scalars bound by index, so the host must upload the fields in the exact
//! order the kernel expects — the contract is structural, not by name.
//! [`DeviceParams`] models that storage: one flat word vector per group.
//! A sync pushes the whole record, never a diff, so what the device sees
//! is a function of the parameter store alone; syncing twice with no
//! intervening mutation leaves the records byte-for-byte identical
//! ([`lemma_sync_idempotent`]).

use vstd::prelude::*;

use crate::params::{Params, PheremoneParams, SlimeParams, ViewParams};

verus! {

/// The agent-kinetics record, in kernel field order.
pub open spec fn slime_record(p: SlimeParams) -> Seq<i64> {
    seq![
        p.max_velocity,
        p.min_velocity,
        p.turn_factor,
        p.avoid_factor,
        p.sensor_dist,
        p.sensor_offset,
        p.sensor_radius,
        p.brownian_offset,
    ]
}

/// The trail-kinetics record, in kernel field order.
pub open spec fn pheremone_record(p: PheremoneParams) -> Seq<i64> {
    seq![p.deposition_amount, p.diffusion_factor, p.decay_factor]
}

/// The view-transform record, in kernel field order.
pub open spec fn view_record(p: ViewParams) -> Seq<i64> {
    seq![p.shift_modifier, p.x_shift, p.y_shift, p.zoom, p.time_modifier]
}

/// Model of the GPU-visible parameter buffers: one word vector per group.
pub struct DeviceParams {
    pub view_buf: Vec<i64>,
    pub slime_buf: Vec<i64>,
    pub pheremone_buf: Vec<i64>,
}

/// The device holds exactly the records of `p`.
pub open spec fn synced(d: DeviceParams, p: Params) -> bool {
    &&& d.view_buf@ == view_record(p.view_params)
    &&& d.slime_buf@ == slime_record(p.slime_params)
    &&& d.pheremone_buf@ == pheremone_record(p.pheremone_params)
}

impl DeviceParams {
    /// Device storage before the first sync: all records empty.
    pub fn new() -> (d: DeviceParams)
        ensures
            d.view_buf@ == Seq::<i64>::empty(),
            d.slime_buf@ == Seq::<i64>::empty(),
            d.pheremone_buf@ == Seq::<i64>::empty(),
    {
        DeviceParams { view_buf: Vec::new(), slime_buf: Vec::new(), pheremone_buf: Vec::new() }
    }

    /// Overwrite the device's view record with the store's current values.
    pub fn update_view_params_buffer(&mut self, p: &Params)
        ensures
            final(self).view_buf@ == view_record(p.view_params),
            final(self).slime_buf@ == old(self).slime_buf@,
            final(self).pheremone_buf@ == old(self).pheremone_buf@,
    {
        let mut buf: Vec<i64> = Vec::new();
        buf.push(p.view_params.shift_modifier);
        buf.push(p.view_params.x_shift);
        buf.push(p.view_params.y_shift);
        buf.push(p.view_params.zoom);
        buf.push(p.view_params.time_modifier);
        proof {
            assert(buf@ =~= view_record(p.view_params));
        }
        self.view_buf = buf;
    }

    /// Overwrite the device's agent-kinetics record with the store's
    /// current values.
    pub fn update_slime_params_buffer(&mut self, p: &Params)
        ensures
            final(self).slime_buf@ == slime_record(p.slime_params),
            final(self).view_buf@ == old(self).view_buf@,
            final(self).pheremone_buf@ == old(self).pheremone_buf@,
    {
        let mut buf: Vec<i64> = Vec::new();
        buf.push(p.slime_params.max_velocity);
        buf.push(p.slime_params.min_velocity);
        buf.push(p.slime_params.turn_factor);
        buf.push(p.slime_params.avoid_factor);
        buf.push(p.slime_params.sensor_dist);
        buf.push(p.slime_params.sensor_offset);
        buf.push(p.slime_params.sensor_radius);
        buf.push(p.slime_params.brownian_offset);
        proof {
            assert(buf@ =~= slime_record(p.slime_params));
        }
        self.slime_buf = buf;
    }

    /// Overwrite the device's trail-kinetics record with the store's
    /// current values.
    pub fn update_pheremone_params_buffer(&mut self, p: &Params)
        ensures
            final(self).pheremone_buf@ == pheremone_record(p.pheremone_params),
            final(self).view_buf@ == old(self).view_buf@,
            final(self).slime_buf@ == old(self).slime_buf@,
    {
        let mut buf: Vec<i64> = Vec::new();
        buf.push(p.pheremone_params.deposition_amount);
        buf.push(p.pheremone_params.diffusion_factor);
        buf.push(p.pheremone_params.decay_factor);
        proof {
            assert(buf@ =~= pheremone_record(p.pheremone_params));
        }
        self.pheremone_buf = buf;
    }

    /// Push the whole parameter store to device-visible storage.
    pub fn sync_to_device(&mut self, p: &Params)
        ensures
            synced(*final(self), *p),
    {
        self.update_view_params_buffer(p);
        self.update_slime_params_buffer(p);
        self.update_pheremone_params_buffer(p);
    }
}

/// Syncing is idempotent: the records a sync leaves behind depend on the
/// parameter store alone, so a second `sync_to_device` with no intervening
/// `apply` reproduces the same device-visible words, whatever the device
/// held before either sync.
pub proof fn lemma_sync_idempotent(d1: DeviceParams, d2: DeviceParams, p: Params)
    requires
        synced(d1, p),
        synced(d2, p),
    ensures
        d1.view_buf@ == d2.view_buf@,
        d1.slime_buf@ == d2.slime_buf@,
        d1.pheremone_buf@ == d2.pheremone_buf@,
{
}

} // verus!
