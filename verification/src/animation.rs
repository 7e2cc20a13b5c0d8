//! The animation stepper: the sprite's atlas frame advances once the
//! accumulated slide distance crosses the spin threshold, and the
//! threshold is subtracted (not reset) so any overshoot carries into the
//! next cycle.

use vstd::prelude::*;
use crate::components::Distance;
use crate::{ATLAS_FRAMES, SLIDE_SPIN_THRESHOLD_FX};

verus! {

/// One animation step: once the slid distance reaches the spin
/// threshold, the frame index advances by one modulo the frame count and
/// the threshold is subtracted from the distance; otherwise nothing
/// changes.
pub open spec fn spec_advance(index: int, dist: int) -> (int, int) {
    if dist >= SLIDE_SPIN_THRESHOLD_FX as int {
        ((index + 1) % (ATLAS_FRAMES as int), dist - SLIDE_SPIN_THRESHOLD_FX as int)
    } else {
        (index, dist)
    }
}

/// `n` consecutive animation steps.
pub open spec fn spec_advance_n(index: int, dist: int, n: nat) -> (int, int)
    decreases n,
{
    if n == 0 {
        (index, dist)
    } else {
        let stepped = spec_advance(index, dist);
        spec_advance_n(stepped.0, stepped.1, (n - 1) as nat)
    }
}

/// Advances the sprite's atlas frame once the accumulated slide distance
/// crosses the spin threshold, consuming the threshold and keeping the
/// overshoot.
pub fn update_sprite_rotation(atlas_index: &mut u32, distance: &mut Distance)
    requires
        *old(atlas_index) < ATLAS_FRAMES,
        old(distance).wf(),
    ensures
        *final(atlas_index) as int == spec_advance(
            *old(atlas_index) as int, old(distance).0 as int).0,
        final(distance).0 as int == spec_advance(
            *old(atlas_index) as int, old(distance).0 as int).1,
        *final(atlas_index) < ATLAS_FRAMES,
        final(distance).wf(),
{
    if distance.0 >= SLIDE_SPIN_THRESHOLD_FX {
        *atlas_index = (*atlas_index + 1) % ATLAS_FRAMES;
        distance.0 = distance.0 - SLIDE_SPIN_THRESHOLD_FX;
    }
}

/// Overshoot-preserving animation law: a distance seeded with `n` full
/// spin thresholds plus a remainder `r` below the threshold is reduced
/// by `n` consecutive animation steps to exactly `r`, while the frame
/// index advances by exactly `n` modulo the frame count.
pub proof fn lemma_slide_overshoot(index: int, n: nat, r: int)
    requires
        0 <= index < ATLAS_FRAMES as int,
        0 <= r < SLIDE_SPIN_THRESHOLD_FX as int,
    ensures
        spec_advance_n(index, SLIDE_SPIN_THRESHOLD_FX as int * n + r, n)
            == (((index + n) % (ATLAS_FRAMES as int)), r),
    decreases n,
{
    let thr = SLIDE_SPIN_THRESHOLD_FX as int;
    let frames = ATLAS_FRAMES as int;
    if n == 0 {
        assert(thr * 0 == 0) by (nonlinear_arith);
        vstd::arithmetic::div_mod::lemma_small_mod(index as nat, frames as nat);
    } else {
        assert(thr * n >= thr) by (nonlinear_arith)
            requires n >= 1, thr > 0;
        assert(thr * n - thr == thr * (n - 1)) by (nonlinear_arith);
        vstd::arithmetic::div_mod::lemma_mod_bound(index + 1, frames);
        let next = (index + 1) % frames;
        lemma_slide_overshoot(next, (n - 1) as nat, r);
        vstd::arithmetic::div_mod::lemma_add_mod_noop_right(n - 1, index + 1, frames);
    }
}

} // verus!
