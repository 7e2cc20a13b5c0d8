//! The state carried by the single simulated body: its position, its
//! velocity, the cooldown between accepted pushes, and the distance slid
//! since the sprite frame last advanced.

use vstd::prelude::*;
use crate::vec2::Vec2Fx;
use crate::{POS_LIMIT_FX, VEL_LIMIT_FX, DIST_LIMIT_FX, PUSH_DELAY_LIMIT_FX};

verus! {

/// Marker for values that belong to the pet.
#[derive(Clone, Copy, Debug, PartialEq, Eq, Structural)]
pub struct CubeBaby;

/// A delay in fixed-point seconds before the pet may be pushed again.
#[derive(Clone, Copy, Debug, PartialEq, Eq, Structural)]
pub struct PushDelay(pub i64);

impl PushDelay {
    /// A well-formed delay is non-negative and bounded.
    pub open spec fn wf(self) -> bool {
        0 <= self.0 <= PUSH_DELAY_LIMIT_FX
    }

    /// A delay of zero seconds.
    pub fn zero() -> (r: Self)
        ensures
            r.0 == 0,
            r.wf(),
    {
        PushDelay(0)
    }
}

/// The distance slid since the pet last had its sprite updated, in
/// fixed-point pixels.
#[derive(Clone, Copy, Debug, PartialEq, Eq, Structural)]
pub struct Distance(pub i64);

impl Distance {
    /// A well-formed distance is non-negative and bounded.
    pub open spec fn wf(self) -> bool {
        0 <= self.0 <= DIST_LIMIT_FX
    }

    /// A distance of zero pixels.
    pub fn zero() -> (r: Self)
        ensures
            r.0 == 0,
            r.wf(),
    {
        Distance(0)
    }
}

/// A persistent position in fixed-point pixels.
#[derive(Clone, Copy, Debug, PartialEq, Eq, Structural)]
pub struct Position(pub Vec2Fx);

impl Position {
    /// A well-formed position stays within the generous coordinate range.
    pub open spec fn wf(self) -> bool {
        self.0.within(POS_LIMIT_FX as int)
    }

    /// Creates a new position from fixed-point coordinates.
    pub fn new(x: i64, y: i64) -> (r: Self)
        ensures
            r.0 == (Vec2Fx { x, y }),
    {
        Position(Vec2Fx { x, y })
    }
}

/// A persistent velocity in fixed-point pixels per second.
#[derive(Clone, Copy, Debug, PartialEq, Eq, Structural)]
pub struct Velocity(pub Vec2Fx);

impl Velocity {
    /// A well-formed velocity stays within the saturation range.
    pub open spec fn wf(self) -> bool {
        self.0.within(VEL_LIMIT_FX as int)
    }

    /// Creates a new velocity from fixed-point components.
    pub fn new(x: i64, y: i64) -> (r: Self)
        ensures
            r.0 == (Vec2Fx { x, y }),
    {
        Velocity(Vec2Fx { x, y })
    }
}

/// The new velocity after an impulse: each component moves by the impulse
/// and saturates at the well-formed velocity range.
pub open spec fn spec_vel_after_impulse(v: int, impulse: int) -> int {
    crate::fixed::spec_clamp(v + impulse, -(VEL_LIMIT_FX as int), VEL_LIMIT_FX as int)
}

/// Adds an impulse to a velocity, saturating each component at the
/// well-formed range.
pub fn apply_impulse(velocity: &mut Velocity, impulse: Vec2Fx)
    requires
        old(velocity).wf(),
        impulse.within(1_000_000_000_000),
    ensures
        final(velocity).0.x as int == spec_vel_after_impulse(old(velocity).0.x as int, impulse.x as int),
        final(velocity).0.y as int == spec_vel_after_impulse(old(velocity).0.y as int, impulse.y as int),
        final(velocity).wf(),
{
    let x: i64 = crate::fixed::clamp_i64(velocity.0.x + impulse.x, -VEL_LIMIT_FX, VEL_LIMIT_FX);
    let y: i64 = crate::fixed::clamp_i64(velocity.0.y + impulse.y, -VEL_LIMIT_FX, VEL_LIMIT_FX);
    velocity.0 = Vec2Fx { x, y };
}

} // verus!
