//! The per-tick integrator: boundary reflection against the monitor
//! edges, position integration, exponential drag, slide-distance
//! accumulation, and the window placement for the new position.

use vstd::prelude::*;
use crate::components::{Position, Velocity, Distance};
use crate::fixed::{
    spec_abs, spec_clamp, spec_fx_mul, spec_round_px, fx_mul, round_to_px, clamp_i64,
    lemma_abs_mul_le, lemma_fx_mul_abs_bound, lemma_fx_mul_shrinks,
};
use crate::resources::DisplayProperties;
use crate::vec2::{Vec2Fx, PixelPoint};
use crate::{FX_ONE, WINDOW_SIZE_FX, SLIDE_DRAG_EFFECTIVE_FX, VEL_LIMIT_FX, DT_LIMIT_FX, DIST_LIMIT_FX};

verus! {

/// One axis of the boundary reflection step: a position left of the low
/// edge is clamped to it and the velocity is reflected away (made
/// non-negative); a position whose far side passes the high edge is
/// clamped so the window's far side touches it and the velocity is
/// reflected back (made non-positive); otherwise nothing changes.
pub open spec fn spec_clamp_reflect_axis(p: int, v: int, lo: int, hi: int) -> (int, int) {
    if p < lo {
        (lo, spec_abs(v))
    } else if p + WINDOW_SIZE_FX as int > hi {
        (hi - WINDOW_SIZE_FX as int, -spec_abs(v))
    } else {
        (p, v)
    }
}

/// The drag factor for one step: `1 - drag * dt`, clamped into `[0, 1]`
/// so an oversized step can never invert a velocity's sign.
pub open spec fn spec_drag_factor(dt: int) -> int {
    spec_clamp(
        FX_ONE as int - spec_fx_mul(SLIDE_DRAG_EFFECTIVE_FX as int, dt),
        0,
        FX_ONE as int,
    )
}

/// The integer square root of a non-negative value.
pub open spec fn spec_isqrt(n: int) -> int {
    choose|r: int| 0 <= r && #[trigger] (r * r) <= n && n < (r + 1) * (r + 1)
}

/// Any witness with the integer-square-root property is the integer
/// square root: the property determines the value uniquely.
pub proof fn lemma_isqrt_exact(n: int, r: int)
    requires
        0 <= r,
        r * r <= n,
        n < (r + 1) * (r + 1),
    ensures
        spec_isqrt(n) == r,
{
    assert(exists|x: int| 0 <= x && #[trigger] (x * x) <= n && n < (x + 1) * (x + 1)) by {
        assert(0 <= r && r * r <= n && n < (r + 1) * (r + 1));
    }
    let s = spec_isqrt(n);
    assert(0 <= s && s * s <= n && n < (s + 1) * (s + 1));
    assert(0 <= s + 1 && s + 1 <= r ==> (s + 1) * (s + 1) <= r * r) by (nonlinear_arith);
    assert(0 <= r + 1 && r + 1 <= s ==> (r + 1) * (r + 1) <= s * s) by (nonlinear_arith);
}

/// Every non-negative integer has an integer square root, so
/// `spec_isqrt` carries its defining property on all of them.
pub proof fn lemma_isqrt_exists(n: int)
    requires
        0 <= n,
    ensures
        0 <= spec_isqrt(n),
        spec_isqrt(n) * spec_isqrt(n) <= n,
        n < (spec_isqrt(n) + 1) * (spec_isqrt(n) + 1),
    decreases n,
{
    if n == 0 {
        lemma_isqrt_exact(0, 0);
    } else {
        lemma_isqrt_exists(n - 1);
        let r = spec_isqrt(n - 1);
        if n == (r + 1) * (r + 1) {
            assert((r + 1) * (r + 1) < (r + 2) * (r + 2)) by (nonlinear_arith)
                requires r >= 0;
            lemma_isqrt_exact(n, r + 1);
        } else {
            lemma_isqrt_exact(n, r);
        }
    }
}

/// The position on one axis after a full integrator step: clamp and
/// reflect against the edges, then advance by the reflected velocity.
pub open spec fn spec_step_pos(p: int, v: int, lo: int, hi: int, dt: int) -> int {
    spec_clamp_reflect_axis(p, v, lo, hi).0
        + spec_fx_mul(spec_clamp_reflect_axis(p, v, lo, hi).1, dt)
}

/// The velocity on one axis after a full integrator step: the reflected
/// velocity with one step of drag applied.
pub open spec fn spec_step_vel(p: int, v: int, lo: int, hi: int, dt: int) -> int {
    spec_fx_mul(spec_clamp_reflect_axis(p, v, lo, hi).1, spec_drag_factor(dt))
}

/// The accumulated slide distance after a step that moved by
/// `(dx, dy)`: grown by the Euclidean distance travelled, saturating at
/// the well-formed bound.
pub open spec fn spec_step_dist(dist: int, dx: int, dy: int) -> int {
    if dist + spec_isqrt(dx * dx + dy * dy) > DIST_LIMIT_FX as int {
        DIST_LIMIT_FX as int
    } else {
        dist + spec_isqrt(dx * dx + dy * dy)
    }
}

/// The display's low x edge in fixed-point.
pub open spec fn spec_min_x_fx(d: DisplayProperties) -> int {
    d.position.x as int * FX_ONE as int
}

/// The display's low y edge in fixed-point.
pub open spec fn spec_min_y_fx(d: DisplayProperties) -> int {
    d.position.y as int * FX_ONE as int
}

/// The display's high x edge in fixed-point.
pub open spec fn spec_max_x_fx(d: DisplayProperties) -> int {
    d.spec_max_x() * FX_ONE as int
}

/// The display's high y edge in fixed-point.
pub open spec fn spec_max_y_fx(d: DisplayProperties) -> int {
    d.spec_max_y() * FX_ONE as int
}

/// Advances the body by one simulation step of `dt` fixed-point seconds:
/// reflects it off the monitor edges, integrates the position, applies
/// drag to the velocity, accumulates the distance slid, and returns the
/// whole-pixel window placement for the new position.
pub fn update_window_movement(
    position: &mut Position,
    velocity: &mut Velocity,
    distance: &mut Distance,
    display_properties: &DisplayProperties,
    dt: i64,
) -> (window_position: PixelPoint)
    requires
        old(position).wf(),
        old(velocity).wf(),
        old(distance).wf(),
        0 <= dt <= DT_LIMIT_FX,
    ensures
        final(position).0.x as int == spec_step_pos(
            old(position).0.x as int, old(velocity).0.x as int,
            spec_min_x_fx(*display_properties), spec_max_x_fx(*display_properties), dt as int),
        final(position).0.y as int == spec_step_pos(
            old(position).0.y as int, old(velocity).0.y as int,
            spec_min_y_fx(*display_properties), spec_max_y_fx(*display_properties), dt as int),
        final(velocity).0.x as int == spec_step_vel(
            old(position).0.x as int, old(velocity).0.x as int,
            spec_min_x_fx(*display_properties), spec_max_x_fx(*display_properties), dt as int),
        final(velocity).0.y as int == spec_step_vel(
            old(position).0.y as int, old(velocity).0.y as int,
            spec_min_y_fx(*display_properties), spec_max_y_fx(*display_properties), dt as int),
        final(distance).0 as int == spec_step_dist(
            old(distance).0 as int,
            spec_fx_mul(spec_clamp_reflect_axis(
                old(position).0.x as int, old(velocity).0.x as int,
                spec_min_x_fx(*display_properties), spec_max_x_fx(*display_properties)).1, dt as int),
            spec_fx_mul(spec_clamp_reflect_axis(
                old(position).0.y as int, old(velocity).0.y as int,
                spec_min_y_fx(*display_properties), spec_max_y_fx(*display_properties)).1, dt as int)),
        final(position).wf(),
        final(velocity).wf(),
        final(distance).wf(),
        window_position.x as int == spec_clamp(
            spec_round_px(final(position).0.x as int), i32::MIN as int, i32::MAX as int),
        window_position.y as int == spec_clamp(
            spec_round_px(final(position).0.y as int), i32::MIN as int, i32::MAX as int),
{
    let minimum: PixelPoint = display_properties.minimum_position();
    let maximum: PixelPoint = display_properties.maximum_position();
    let min_x: i64 = minimum.x as i64 * FX_ONE;
    let min_y: i64 = minimum.y as i64 * FX_ONE;
    let max_x: i64 = maximum.x as i64 * FX_ONE;
    let max_y: i64 = maximum.y as i64 * FX_ONE;

    let mut px: i64 = position.0.x;
    let mut py: i64 = position.0.y;
    let mut vx: i64 = velocity.0.x;
    let mut vy: i64 = velocity.0.y;

    if px < min_x {
        px = min_x;
        vx = if vx < 0 { -vx } else { vx };
    } else if px + WINDOW_SIZE_FX > max_x {
        px = max_x - WINDOW_SIZE_FX;
        vx = if vx < 0 { vx } else { -vx };
    }

    if py < min_y {
        py = min_y;
        vy = if vy < 0 { -vy } else { vy };
    } else if py + WINDOW_SIZE_FX > max_y {
        py = max_y - WINDOW_SIZE_FX;
        vy = if vy < 0 { vy } else { -vy };
    }

    proof {
        assert((px as int, vx as int) == spec_clamp_reflect_axis(
            old(position).0.x as int, old(velocity).0.x as int,
            spec_min_x_fx(*display_properties), spec_max_x_fx(*display_properties)));
        assert((py as int, vy as int) == spec_clamp_reflect_axis(
            old(position).0.y as int, old(velocity).0.y as int,
            spec_min_y_fx(*display_properties), spec_max_y_fx(*display_properties)));
        lemma_abs_mul_le(vx as int, dt as int, VEL_LIMIT_FX as int, DT_LIMIT_FX as int);
        lemma_abs_mul_le(vy as int, dt as int, VEL_LIMIT_FX as int, DT_LIMIT_FX as int);
        lemma_fx_mul_abs_bound(vx as int, dt as int, 2_000_000_000);
        lemma_fx_mul_abs_bound(vy as int, dt as int, 2_000_000_000);
    }

    let dx: i64 = fx_mul(vx, dt);
    let dy: i64 = fx_mul(vy, dt);

    proof {
        lemma_abs_mul_le(SLIDE_DRAG_EFFECTIVE_FX as int, dt as int, 500, DT_LIMIT_FX as int);
    }
    let factor: i64 = clamp_i64(FX_ONE - fx_mul(SLIDE_DRAG_EFFECTIVE_FX, dt), 0, FX_ONE);
    proof {
        lemma_fx_mul_shrinks(vx as int, factor as int);
        lemma_fx_mul_shrinks(vy as int, factor as int);
        lemma_abs_mul_le(vx as int, factor as int, VEL_LIMIT_FX as int, FX_ONE as int);
        lemma_abs_mul_le(vy as int, factor as int, VEL_LIMIT_FX as int, FX_ONE as int);
    }
    let new_vx: i64 = fx_mul(vx, factor);
    let new_vy: i64 = fx_mul(vy, factor);

    let delta = Vec2Fx { x: dx, y: dy };
    let step: i64 = delta.magnitude();
    proof {
        lemma_isqrt_exact(delta.spec_mag_sq(), step as int);
    }
    let new_dist: i64 = if distance.0 > DIST_LIMIT_FX - step {
        DIST_LIMIT_FX
    } else {
        distance.0 + step
    };

    position.0 = Vec2Fx { x: px + dx, y: py + dy };
    velocity.0 = Vec2Fx { x: new_vx, y: new_vy };
    distance.0 = new_dist;

    PixelPoint { x: round_to_px(position.0.x), y: round_to_px(position.0.y) }
}

/// Boundary reflection law: a position past an edge is clamped to that
/// edge, and the velocity on that axis is forced to point away from it.
pub proof fn lemma_boundary_reflection(p: int, v: int, lo: int, hi: int)
    ensures
        p < lo ==> spec_clamp_reflect_axis(p, v, lo, hi).0 == lo
            && spec_clamp_reflect_axis(p, v, lo, hi).1 >= 0,
        p >= lo && p + WINDOW_SIZE_FX as int > hi
            ==> spec_clamp_reflect_axis(p, v, lo, hi).0 == hi - WINDOW_SIZE_FX as int
                && spec_clamp_reflect_axis(p, v, lo, hi).1 <= 0,
{
}

/// A zero time step is the identity: for a body resting within the
/// bounds, one integrator step with `dt == 0` leaves the position, the
/// velocity and the accumulated distance exactly as they were.
pub proof fn lemma_zero_dt_identity(
    px: int, py: int, vx: int, vy: int,
    lox: int, hix: int, loy: int, hiy: int,
    dist: int,
)
    requires
        lox <= px,
        px + WINDOW_SIZE_FX as int <= hix,
        loy <= py,
        py + WINDOW_SIZE_FX as int <= hiy,
        0 <= dist <= DIST_LIMIT_FX,
    ensures
        spec_step_pos(px, vx, lox, hix, 0) == px,
        spec_step_pos(py, vy, loy, hiy, 0) == py,
        spec_step_vel(px, vx, lox, hix, 0) == vx,
        spec_step_vel(py, vy, loy, hiy, 0) == vy,
        spec_step_dist(
            dist,
            spec_fx_mul(spec_clamp_reflect_axis(px, vx, lox, hix).1, 0),
            spec_fx_mul(spec_clamp_reflect_axis(py, vy, loy, hiy).1, 0)) == dist,
{
    crate::fixed::lemma_fx_mul_zero(vx);
    crate::fixed::lemma_fx_mul_zero(vy);
    crate::fixed::lemma_fx_mul_zero(SLIDE_DRAG_EFFECTIVE_FX as int);
    assert(spec_drag_factor(0) == FX_ONE as int);
    crate::fixed::lemma_fx_mul_one(vx);
    crate::fixed::lemma_fx_mul_one(vy);
    lemma_isqrt_exact(0, 0);
}

} // verus!
