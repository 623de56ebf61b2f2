//! The library's one source of randomness.
//!
//! Random draws feed the initial agent velocities, the per-frame brownian
//! perturbations and the periodic attractor coordinates. Nothing can be
//! promised about *which* value comes back — only its range — so every
//! consumer of a draw is verified for all values in that range.

use vstd::prelude::*;

verus! {

/// Relies on rand::thread_rng and rand::Rng::gen_range: a draw from the
/// inclusive range `lo..=hi`, which panics only on an empty range, ruled
/// out by the precondition. The draw depends on the thread's generator
/// state, so nothing beyond the range bound is assumed of it.
#[verifier::external_body]
pub fn random_i64_between(lo: i64, hi: i64) -> (r: i64)
    requires
        lo <= hi,
    ensures
        lo <= r <= hi,
{
    rand::Rng::gen_range(&mut rand::thread_rng(), lo..=hi)
}

} // verus!
