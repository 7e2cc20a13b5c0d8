//! Core logic of a bouncing desktop-pet sprite: an elastic bounding-box
//! integrator, cursor-drag and keyboard-knock impulse handlers, a
//! slide-driven animation stepper, and a small resource-loading state
//! machine that gates the simulation until the monitor geometry and the
//! sprite texture are available.
//!
//! All distances, velocities and durations are fixed-point integers with
//! three fractional decimal digits: one unit is 1/1000 of a pixel, of a
//! pixel per second, or of a second. This keeps every quantity exact and
//! lets each update step carry a precise contract.

use vstd::prelude::*;

pub mod animation;
pub mod components;
pub mod fixed;
pub mod input;
pub mod loading;
pub mod physics;
pub mod resources;
pub mod states;
pub mod vec2;

verus! {

/// One whole unit (a pixel, a pixel per second, or a second) in fixed-point.
pub const FX_ONE: i64 = 1000;

/// The number of frames in the pet's texture atlas animation.
pub const ATLAS_FRAMES: u32 = 8;

/// The image scale of the sprite (2.0), in fixed-point.
pub const SPRITE_SCALE_FX: i64 = 2000;

/// The side length of the spawned window (64 pixels), in fixed-point.
pub const WINDOW_SIZE_FX: i64 = 64000;

/// The strength the pet is pushed at when touched by the cursor (16.0),
/// in fixed-point.
pub const PUSH_STRENGTH_FX: i64 = 16000;

/// The minimum time in seconds between accepted cursor pushes (0.25),
/// in fixed-point.
pub const PUSH_DELAY_FX: i64 = 250;

/// The drag coefficient applied while sliding (0.25), in fixed-point.
pub const SLIDE_DRAG_FX: i64 = 250;

/// The slid distance required before the sprite frame advances (10.0),
/// in fixed-point.
pub const SLIDE_SPIN_DISTANCE_FX: i64 = 10000;

/// The slide-spin threshold scaled by the sprite scale
/// (`SLIDE_SPIN_DISTANCE_FX * SPRITE_SCALE_FX / FX_ONE`), in fixed-point.
pub const SLIDE_SPIN_THRESHOLD_FX: i64 = 20000;

/// The push strength scaled by the sprite scale
/// (`PUSH_STRENGTH_FX * SPRITE_SCALE_FX / FX_ONE`), in fixed-point: the
/// minimum magnitude of an accepted cursor-drag impulse.
pub const PUSH_THRESHOLD_FX: i64 = 32000;

/// The drag coefficient scaled by the sprite scale
/// (`SLIDE_DRAG_FX * SPRITE_SCALE_FX / FX_ONE`), in fixed-point.
pub const SLIDE_DRAG_EFFECTIVE_FX: i64 = 500;

/// The largest magnitude a well-formed position component may have: a
/// generous margin beyond any pixel coordinate an `i32` desktop can name.
pub const POS_LIMIT_FX: i64 = 10_000_000_000_000;

/// The largest magnitude a well-formed velocity component may have
/// (a million pixels per second); impulses saturate here.
pub const VEL_LIMIT_FX: i64 = 1_000_000_000;

/// The longest simulation step the integrator accepts (two seconds).
pub const DT_LIMIT_FX: i64 = 2000;

/// The accumulated slide distance saturates here.
pub const DIST_LIMIT_FX: i64 = 1_000_000_000_000_000;

/// The largest push-cooldown a well-formed body may carry
/// (a thousand seconds).
pub const PUSH_DELAY_LIMIT_FX: i64 = 1_000_000;

/// The largest magnitude a cursor-event coordinate may have
/// (ten thousand pixels).
pub const CURSOR_LIMIT_FX: i64 = 10_000_000;

} // verus!
