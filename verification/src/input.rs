//! The two impulse sources: a randomized keyboard knock and a cursor
//! drag, both feeding the body's velocity through saturating impulses
//! and sharing the push cooldown.

use vstd::prelude::*;
use crate::components::{Velocity, PushDelay, apply_impulse, spec_vel_after_impulse};
use crate::fixed::{
    spec_abs, spec_fx_mul, spec_div_ceil, fx_mul, mul_div_floor_u64, mul_div_ceil_u64, isqrt,
    lemma_abs_mul_le, lemma_fx_mul_abs_bound, lemma_div_floor_mul_le, lemma_div_ceil_mul_ge,
};
use crate::physics::{spec_isqrt, lemma_isqrt_exact, lemma_isqrt_exists};
use crate::vec2::Vec2Fx;
use crate::{
    FX_ONE, SPRITE_SCALE_FX, PUSH_STRENGTH_FX, PUSH_THRESHOLD_FX, PUSH_DELAY_FX, DT_LIMIT_FX,
    CURSOR_LIMIT_FX,
};

verus! {

/// The least `r` with `n <= r * r`: the integer square root rounded up.
pub open spec fn spec_isqrt_ceil(n: int) -> int {
    if spec_isqrt(n) * spec_isqrt(n) == n {
        spec_isqrt(n)
    } else {
        spec_isqrt(n) + 1
    }
}

/// One component of a vector rescaled toward a target magnitude `t` over
/// a length `l`, the division rounded toward zero.
pub open spec fn spec_rescale_floor(c: int, t: int, l: int) -> int {
    if c >= 0 {
        (c * t) / l
    } else {
        -(((-c) * t) / l)
    }
}

/// One component of a vector rescaled toward a target magnitude `t` over
/// a length `l`, the division rounded away from zero.
pub open spec fn spec_rescale_ceil(c: int, t: int, l: int) -> int {
    if c >= 0 {
        spec_div_ceil(c * t, l)
    } else {
        -spec_div_ceil((-c) * t, l)
    }
}

/// The cursor-drag impulse for a drag `(dx, dy)` in fixed-point pixels:
/// the drag scaled by the push strength and the sprite scale; if that
/// falls short of the minimum push magnitude it is rescaled up to exactly
/// that magnitude (rounding away from zero), and a drag that scales to
/// nothing stays nothing.
pub open spec fn spec_drag_impulse(dx: int, dy: int) -> (int, int) {
    let t = PUSH_THRESHOLD_FX as int;
    let sx = spec_fx_mul(dx, t);
    let sy = spec_fx_mul(dy, t);
    if sx * sx + sy * sy >= t * t {
        (sx, sy)
    } else if sx == 0 && sy == 0 {
        (0, 0)
    } else {
        let l = spec_isqrt(sx * sx + sy * sy);
        (spec_rescale_ceil(sx, t, l), spec_rescale_ceil(sy, t, l))
    }
}

/// The keyboard-knock impulse for a raw direction (each component in
/// `[-FX_ONE, FX_ONE]`) and a strength: the direction normalized
/// (rounding toward zero, over its rounded-up length so the magnitude
/// can only shrink) and scaled by the strength times the sprite scale; a
/// degenerate zero direction collapses to no impulse.
pub open spec fn spec_knock_impulse(dx: int, dy: int, s: int) -> (int, int) {
    if dx == 0 && dy == 0 {
        (0, 0)
    } else {
        let t = spec_fx_mul(s, SPRITE_SCALE_FX as int);
        let l = spec_isqrt_ceil(dx * dx + dy * dy);
        (spec_rescale_floor(dx, t, l), spec_rescale_floor(dy, t, l))
    }
}

/// Relies on `fastrand::i64`: a uniform sample from the given inclusive
/// range; the range is non-empty, so the call cannot panic.
#[verifier::external_body]
fn random_in_range(lo: i64, hi: i64) -> (r: i64)
    requires
        lo <= hi,
    ensures
        lo <= r <= hi,
{
    fastrand::i64(lo..=hi)
}

/// Rescales one signed component toward a target magnitude, rounding
/// toward zero; the result never grows past the component-times-target
/// product.
fn rescale_floor(c: i64, t: i64, l: i64) -> (r: i64)
    requires
        spec_abs(c as int) <= 1_000_000_000,
        0 <= t <= 1_000_000,
        1 <= l <= 1_000_000_000_000,
    ensures
        r as int == spec_rescale_floor(c as int, t as int, l as int),
        spec_abs(r as int) <= spec_abs(c as int * t as int),
{
    let uc: u64 = if c < 0 {
        (-c) as u64
    } else {
        c as u64
    };
    proof {
        let ci = c as int;
        let ti = t as int;
        assert((-ci) * ti == -(ci * ti)) by (nonlinear_arith);
        assert(uc as int * ti <= 1_000_000_000_000_000int) by (nonlinear_arith)
            requires 0 <= (uc as int) <= 1_000_000_000int, 0 <= ti <= 1_000_000int;
        lemma_div_floor_mul_le(uc as int * ti, l as int);
        assert((uc as int * ti) / (l as int) <= ((uc as int * ti) / (l as int)) * (l as int))
            by (nonlinear_arith)
            requires ((uc as int * ti) / (l as int)) >= 0, (l as int) >= 1;
    }
    let q: u64 = mul_div_floor_u64(uc, t as u64, l as u64);
    if c < 0 {
        -(q as i64)
    } else {
        q as i64
    }
}

/// Rescales one signed component toward a target magnitude, rounding
/// away from zero; the result never grows past the component-times-target
/// product plus one.
fn rescale_ceil(c: i64, t: i64, l: i64) -> (r: i64)
    requires
        spec_abs(c as int) <= 1_000_000_000,
        0 <= t <= 1_000_000,
        1 <= l <= 1_000_000_000_000,
    ensures
        r as int == spec_rescale_ceil(c as int, t as int, l as int),
        spec_abs(r as int) <= spec_abs(c as int * t as int) + 1,
{
    let uc: u64 = if c < 0 {
        (-c) as u64
    } else {
        c as u64
    };
    proof {
        let ci = c as int;
        let ti = t as int;
        assert((-ci) * ti == -(ci * ti)) by (nonlinear_arith);
        assert(uc as int * ti <= 1_000_000_000_000_000int) by (nonlinear_arith)
            requires 0 <= (uc as int) <= 1_000_000_000int, 0 <= ti <= 1_000_000int;
        lemma_div_ceil_mul_ge(uc as int * ti, l as int);
        lemma_div_floor_mul_le(uc as int * ti + l as int - 1, l as int);
        assert(spec_div_ceil(uc as int * ti, l as int) <= uc as int * ti + 1) by (nonlinear_arith)
            requires
                spec_div_ceil(uc as int * ti, l as int) * (l as int) <= uc as int * ti + (l as int) - 1,
                spec_div_ceil(uc as int * ti, l as int) >= 0,
                uc as int * ti >= 0,
                (l as int) >= 1;
    }
    let q: u64 = mul_div_ceil_u64(uc, t as u64, l as u64);
    if c < 0 {
        -(q as i64)
    } else {
        q as i64
    }
}

/// Rescaling a vector of at least length `l` toward a target magnitude
/// with upward rounding never undershoots the target.
proof fn lemma_rescale_ceil_mag_ge(cx: int, cy: int, t: int, l: int)
    requires
        0 <= cx,
        0 <= cy,
        0 <= t,
        1 <= l,
        l * l <= cx * cx + cy * cy,
    ensures
        spec_div_ceil(cx * t, l) * spec_div_ceil(cx * t, l)
            + spec_div_ceil(cy * t, l) * spec_div_ceil(cy * t, l) >= t * t,
{
    let rx = spec_div_ceil(cx * t, l);
    let ry = spec_div_ceil(cy * t, l);
    assert(cx * t >= 0) by (nonlinear_arith)
        requires cx >= 0, t >= 0;
    assert(cy * t >= 0) by (nonlinear_arith)
        requires cy >= 0, t >= 0;
    lemma_div_ceil_mul_ge(cx * t, l);
    lemma_div_ceil_mul_ge(cy * t, l);
    assert((rx * rx) * (l * l) + (ry * ry) * (l * l) >= (cx * cx + cy * cy) * (t * t))
        by (nonlinear_arith)
        requires
            rx * l >= cx * t,
            ry * l >= cy * t,
            cx * t >= 0,
            cy * t >= 0,
            rx >= 0,
            ry >= 0;
    assert((cx * cx + cy * cy) * (t * t) >= (l * l) * (t * t)) by (nonlinear_arith)
        requires l * l <= cx * cx + cy * cy;
    assert(rx * rx + ry * ry >= t * t) by (nonlinear_arith)
        requires
            (rx * rx) * (l * l) + (ry * ry) * (l * l) >= (l * l) * (t * t),
            l >= 1;
}

/// Rescaling a vector of at most length `l` toward a target magnitude
/// with downward rounding never overshoots the target.
proof fn lemma_rescale_floor_mag_le(cx: int, cy: int, t: int, l: int)
    requires
        0 <= cx,
        0 <= cy,
        0 <= t,
        1 <= l,
        cx * cx + cy * cy <= l * l,
    ensures
        ((cx * t) / l) * ((cx * t) / l) + ((cy * t) / l) * ((cy * t) / l) <= t * t,
{
    let rx = (cx * t) / l;
    let ry = (cy * t) / l;
    assert(cx * t >= 0) by (nonlinear_arith)
        requires cx >= 0, t >= 0;
    assert(cy * t >= 0) by (nonlinear_arith)
        requires cy >= 0, t >= 0;
    lemma_div_floor_mul_le(cx * t, l);
    lemma_div_floor_mul_le(cy * t, l);
    assert((rx * rx) * (l * l) + (ry * ry) * (l * l) <= (cx * cx + cy * cy) * (t * t))
        by (nonlinear_arith)
        requires
            rx * l <= cx * t,
            ry * l <= cy * t,
            rx >= 0,
            ry >= 0,
            l >= 1;
    assert((cx * cx + cy * cy) * (t * t) <= (l * l) * (t * t)) by (nonlinear_arith)
        requires cx * cx + cy * cy <= l * l;
    assert(rx * rx + ry * ry <= t * t) by (nonlinear_arith)
        requires
            (rx * rx) * (l * l) + (ry * ry) * (l * l) <= (l * l) * (t * t),
            l >= 1;
}

/// Minimum-push law: whenever a drag scales to any impulse at all, the
/// impulse's squared magnitude is at least the square of the minimum
/// push magnitude, however small the drag was.
pub proof fn lemma_drag_impulse_minimum(dx: int, dy: int)
    requires
        spec_fx_mul(dx, PUSH_THRESHOLD_FX as int) != 0
            || spec_fx_mul(dy, PUSH_THRESHOLD_FX as int) != 0,
    ensures
        spec_drag_impulse(dx, dy).0 * spec_drag_impulse(dx, dy).0
            + spec_drag_impulse(dx, dy).1 * spec_drag_impulse(dx, dy).1
            >= PUSH_THRESHOLD_FX as int * PUSH_THRESHOLD_FX as int,
{
    let t = PUSH_THRESHOLD_FX as int;
    let sx = spec_fx_mul(dx, t);
    let sy = spec_fx_mul(dy, t);
    let ax = spec_abs(sx);
    let ay = spec_abs(sy);
    assert((-sx) * (-sx) == sx * sx) by (nonlinear_arith);
    assert((-sy) * (-sy) == sy * sy) by (nonlinear_arith);
    let n = sx * sx + sy * sy;
    assert(sx * sx >= 0) by (nonlinear_arith);
    assert(sy * sy >= 0) by (nonlinear_arith);
    assert(ax >= 1 ==> ax * ax >= 1) by (nonlinear_arith);
    assert(ay >= 1 ==> ay * ay >= 1) by (nonlinear_arith);
    if n >= t * t {
        // The scaled drag already clears the minimum and is kept as is.
    } else {
        assert(ax * ax == sx * sx);
        assert(ay * ay == sy * sy);
        assert(n >= 1);
        lemma_isqrt_exists(n);
        let l = spec_isqrt(n);
        assert(l >= 1) by (nonlinear_arith)
            requires 0 <= l, n < (l + 1) * (l + 1), n >= 1;
        lemma_rescale_ceil_mag_ge(ax, ay, t, l);
        assert((-ax) * t == -(ax * t)) by (nonlinear_arith);
        assert((-ay) * t == -(ay * t)) by (nonlinear_arith);
        assert((-spec_div_ceil(ax * t, l)) * (-spec_div_ceil(ax * t, l))
            == spec_div_ceil(ax * t, l) * spec_div_ceil(ax * t, l)) by (nonlinear_arith);
        assert((-spec_div_ceil(ay * t, l)) * (-spec_div_ceil(ay * t, l))
            == spec_div_ceil(ay * t, l) * spec_div_ceil(ay * t, l)) by (nonlinear_arith);
    }
}

/// Bounded-knock law: a knock impulse's squared magnitude never exceeds
/// the square of the scaled strength, and a degenerate zero direction
/// gives no impulse.
pub proof fn lemma_knock_impulse_bounded(dx: int, dy: int, s: int)
    requires
        0 <= s,
    ensures
        spec_knock_impulse(dx, dy, s).0 * spec_knock_impulse(dx, dy, s).0
            + spec_knock_impulse(dx, dy, s).1 * spec_knock_impulse(dx, dy, s).1
            <= spec_fx_mul(s, SPRITE_SCALE_FX as int) * spec_fx_mul(s, SPRITE_SCALE_FX as int),
        dx == 0 && dy == 0 ==> spec_knock_impulse(dx, dy, s) == (0int, 0int),
{
    let t = spec_fx_mul(s, SPRITE_SCALE_FX as int);
    assert(s * SPRITE_SCALE_FX as int >= 0) by (nonlinear_arith)
        requires s >= 0;
    assert(t >= 0) by {
        vstd::arithmetic::div_mod::lemma_div_is_ordered(0, s * SPRITE_SCALE_FX as int, 1000);
        vstd::arithmetic::div_mod::lemma_div_of0(1000);
    }
    if dx == 0 && dy == 0 {
        assert(t * t >= 0) by (nonlinear_arith);
    } else {
        let ax = spec_abs(dx);
        let ay = spec_abs(dy);
        assert((-dx) * (-dx) == dx * dx) by (nonlinear_arith);
        assert((-dy) * (-dy) == dy * dy) by (nonlinear_arith);
        let n = dx * dx + dy * dy;
        assert(dx * dx >= 0) by (nonlinear_arith);
        assert(dy * dy >= 0) by (nonlinear_arith);
        assert(ax >= 1 ==> ax * ax >= 1) by (nonlinear_arith);
        assert(ay >= 1 ==> ay * ay >= 1) by (nonlinear_arith);
        lemma_isqrt_exists(n);
        let l = spec_isqrt_ceil(n);
        assert(l >= 1 && n <= l * l);
        lemma_rescale_floor_mag_le(ax, ay, t, l);
        assert((-ax) * t == -(ax * t)) by (nonlinear_arith);
        assert((-ay) * t == -(ay * t)) by (nonlinear_arith);
        assert((-((ax * t) / l)) * (-((ax * t) / l)) == ((ax * t) / l) * ((ax * t) / l))
            by (nonlinear_arith);
        assert((-((ay * t) / l)) * (-((ay * t) / l)) == ((ay * t) / l) * ((ay * t) / l))
            by (nonlinear_arith);
    }
}

/// A knock impulse vanishes only in the degenerate cases: a zero random
/// direction, or a zero random strength.
pub proof fn lemma_knock_impulse_zero_iff_degenerate(dx: int, dy: int, s: int)
    requires
        0 <= s,
    ensures
        (spec_knock_impulse(dx, dy, s) == (0int, 0int)) <==> ((dx == 0 && dy == 0) || s == 0),
{
    let t = spec_fx_mul(s, SPRITE_SCALE_FX as int);
    assert((1000int * (2 * s)) / 1000int == 2 * s) by {
        vstd::arithmetic::div_mod::lemma_div_multiples_vanish(2 * s, 1000);
    }
    assert(s * (SPRITE_SCALE_FX as int) == 1000int * (2 * s)) by (nonlinear_arith);
    assert(s * (SPRITE_SCALE_FX as int) >= 0) by (nonlinear_arith)
        requires s >= 0;
    assert(t == 2 * s);
    if dx == 0 && dy == 0 {
        // The degenerate direction collapses to no impulse by definition.
    } else {
        let ax = spec_abs(dx);
        let ay = spec_abs(dy);
        assert((-dx) * (-dx) == dx * dx) by (nonlinear_arith);
        assert((-dy) * (-dy) == dy * dy) by (nonlinear_arith);
        let n = dx * dx + dy * dy;
        assert(dx * dx >= 0) by (nonlinear_arith);
        assert(dy * dy >= 0) by (nonlinear_arith);
        assert(ax >= 1 ==> ax * ax >= 1) by (nonlinear_arith);
        assert(ay >= 1 ==> ay * ay >= 1) by (nonlinear_arith);
        assert(n >= 1);
        lemma_isqrt_exists(n);
        let l = spec_isqrt_ceil(n);
        assert(l >= 1) by (nonlinear_arith)
            requires
                n >= 1,
                0 <= spec_isqrt(n),
                n < (spec_isqrt(n) + 1) * (spec_isqrt(n) + 1),
                l == spec_isqrt_ceil(n),
                l == (if spec_isqrt(n) * spec_isqrt(n) == n {
                    spec_isqrt(n)
                } else {
                    spec_isqrt(n) + 1
                });
        if s == 0 {
            assert(ax * t == 0);
            assert(ay * t == 0);
            assert(0int / l == 0) by {
                vstd::arithmetic::div_mod::lemma_div_of0(l);
            }
        } else {
            let m = if ax >= ay { ax } else { ay };
            assert(m >= 1);
            assert(ax * ax <= m * m && ay * ay <= m * m) by (nonlinear_arith)
                requires 0 <= ax <= m, 0 <= ay <= m;
            assert(spec_isqrt(n) <= 2 * m - 1) by (nonlinear_arith)
                requires
                    spec_isqrt(n) * spec_isqrt(n) <= n,
                    n <= 2 * (m * m),
                    m >= 1,
                    0 <= spec_isqrt(n);
            assert(l <= 2 * m);
            assert(m * t >= 2 * m) by (nonlinear_arith)
                requires t >= 2, m >= 0;
            assert((m * t) / l >= 1) by {
                vstd::arithmetic::div_mod::lemma_div_is_ordered(l, m * t, l);
                vstd::arithmetic::div_mod::lemma_div_by_self(l);
            }
            if ax >= ay {
                assert(spec_rescale_floor(dx, t, l) != 0);
            } else {
                assert(spec_rescale_floor(dy, t, l) != 0);
            }
        }
    }
}

/// Computes the cursor-drag impulse: the drag scaled by the push
/// strength and sprite scale, pushed up to the minimum push magnitude
/// where it falls short. Whenever the scaled drag is non-zero, the
/// impulse's magnitude is at least the minimum push magnitude.
pub fn drag_impulse(delta: Vec2Fx) -> (r: Vec2Fx)
    requires
        delta.within(2 * CURSOR_LIMIT_FX as int),
    ensures
        r.x as int == spec_drag_impulse(delta.x as int, delta.y as int).0,
        r.y as int == spec_drag_impulse(delta.x as int, delta.y as int).1,
        r.within(2_000_000_000),
        (spec_fx_mul(delta.x as int, PUSH_THRESHOLD_FX as int) != 0
            || spec_fx_mul(delta.y as int, PUSH_THRESHOLD_FX as int) != 0)
            ==> r.spec_mag_sq() >= PUSH_THRESHOLD_FX as int * PUSH_THRESHOLD_FX as int,
{
    proof {
        lemma_abs_mul_le(delta.x as int, PUSH_THRESHOLD_FX as int, 20_000_000, 32_000);
        lemma_abs_mul_le(delta.y as int, PUSH_THRESHOLD_FX as int, 20_000_000, 32_000);
        lemma_fx_mul_abs_bound(delta.x as int, PUSH_THRESHOLD_FX as int, 640_000_000);
        lemma_fx_mul_abs_bound(delta.y as int, PUSH_THRESHOLD_FX as int, 640_000_000);
    }
    let sx: i64 = fx_mul(delta.x, PUSH_THRESHOLD_FX);
    let sy: i64 = fx_mul(delta.y, PUSH_THRESHOLD_FX);
    let usx: u64 = if sx < 0 {
        (-sx) as u64
    } else {
        sx as u64
    };
    let usy: u64 = if sy < 0 {
        (-sy) as u64
    } else {
        sy as u64
    };
    proof {
        let sxi = sx as int;
        let syi = sy as int;
        assert((-sxi) * (-sxi) == sxi * sxi) by (nonlinear_arith);
        assert((-syi) * (-syi) == syi * syi) by (nonlinear_arith);
        assert(usx as int * usx as int <= 640_000_000_000_000_000int) by (nonlinear_arith)
            requires 0 <= (usx as int) <= 640_000_000int;
        assert(usy as int * usy as int <= 640_000_000_000_000_000int) by (nonlinear_arith)
            requires 0 <= (usy as int) <= 640_000_000int;
    }
    let sq: u64 = usx * usx + usy * usy;
    if sq >= 1_024_000_000 {
        Vec2Fx { x: sx, y: sy }
    } else if sx == 0 && sy == 0 {
        Vec2Fx { x: 0, y: 0 }
    } else {
        proof {
            assert(usx as int >= 1 ==> usx as int * usx as int >= 1) by (nonlinear_arith);
            assert(usy as int >= 1 ==> usy as int * usy as int >= 1) by (nonlinear_arith);
        }
        let l: u64 = isqrt(sq);
        proof {
            lemma_isqrt_exact(sq as int, l as int);
            assert(l as int <= 1_000_000_000int) by (nonlinear_arith)
                requires
                    l as int * l as int <= 1_024_000_000int,
                    0 <= l as int;
        }
        let rx: i64 = rescale_ceil(sx, PUSH_THRESHOLD_FX, l as i64);
        let ry: i64 = rescale_ceil(sy, PUSH_THRESHOLD_FX, l as i64);
        proof {
            let sxi = sx as int;
            let syi = sy as int;
            let li = l as int;
            let ti = PUSH_THRESHOLD_FX as int;
            assert(usx as int <= 32_000int) by (nonlinear_arith)
                requires
                    usx as int * usx as int <= 1_024_000_000int,
                    0 <= usx as int;
            assert(usy as int <= 32_000int) by (nonlinear_arith)
                requires
                    usy as int * usy as int <= 1_024_000_000int,
                    0 <= usy as int;
            lemma_abs_mul_le(sxi, ti, 32_000, 32_000);
            lemma_abs_mul_le(syi, ti, 32_000, 32_000);
            lemma_rescale_ceil_mag_ge(usx as int, usy as int, ti, li);
            assert((-(usx as int)) * ti == -(usx as int * ti)) by (nonlinear_arith);
            assert((-(usy as int)) * ti == -(usy as int * ti)) by (nonlinear_arith);
            assert((-spec_div_ceil(usx as int * ti, li)) * (-spec_div_ceil(usx as int * ti, li))
                == spec_div_ceil(usx as int * ti, li) * spec_div_ceil(usx as int * ti, li))
                by (nonlinear_arith);
            assert((-spec_div_ceil(usy as int * ti, li)) * (-spec_div_ceil(usy as int * ti, li))
                == spec_div_ceil(usy as int * ti, li) * spec_div_ceil(usy as int * ti, li))
                by (nonlinear_arith);
        }
        Vec2Fx { x: rx, y: ry }
    }
}

/// Computes the keyboard-knock impulse from a raw random direction and a
/// raw random strength: the direction normalized and scaled by the
/// strength times the sprite scale. The impulse's magnitude never
/// exceeds the scaled strength, and a degenerate zero direction gives no
/// impulse at all.
pub fn knock_impulse(direction_x: i64, direction_y: i64, strength: i64) -> (r: Vec2Fx)
    requires
        -FX_ONE <= direction_x <= FX_ONE,
        -FX_ONE <= direction_y <= FX_ONE,
        0 <= strength <= 2 * PUSH_STRENGTH_FX,
    ensures
        r.x as int == spec_knock_impulse(direction_x as int, direction_y as int, strength as int).0,
        r.y as int == spec_knock_impulse(direction_x as int, direction_y as int, strength as int).1,
        r.within(100_000_000),
        direction_x == 0 && direction_y == 0 ==> r == (Vec2Fx { x: 0i64, y: 0i64 }),
        r.spec_mag_sq() <= spec_fx_mul(strength as int, SPRITE_SCALE_FX as int)
            * spec_fx_mul(strength as int, SPRITE_SCALE_FX as int),
{
    if direction_x == 0 && direction_y == 0 {
        proof {
            let ti = spec_fx_mul(strength as int, SPRITE_SCALE_FX as int);
            assert(ti * ti >= 0) by (nonlinear_arith);
        }
        Vec2Fx { x: 0, y: 0 }
    } else {
        proof {
            lemma_abs_mul_le(strength as int, SPRITE_SCALE_FX as int, 32_000, 2_000);
            lemma_fx_mul_abs_bound(strength as int, SPRITE_SCALE_FX as int, 64_000);
        }
        let t: i64 = fx_mul(strength, SPRITE_SCALE_FX);
        proof {
            assert(strength as int * SPRITE_SCALE_FX as int >= 0) by (nonlinear_arith)
                requires strength as int >= 0;
            assert(t as int >= 0) by {
                vstd::arithmetic::div_mod::lemma_div_is_ordered(
                    0, strength as int * SPRITE_SCALE_FX as int, 1000);
                vstd::arithmetic::div_mod::lemma_div_of0(1000);
            }
        }
        let udx: u64 = if direction_x < 0 {
            (-direction_x) as u64
        } else {
            direction_x as u64
        };
        let udy: u64 = if direction_y < 0 {
            (-direction_y) as u64
        } else {
            direction_y as u64
        };
        proof {
            let dxi = direction_x as int;
            let dyi = direction_y as int;
            assert((-dxi) * (-dxi) == dxi * dxi) by (nonlinear_arith);
            assert((-dyi) * (-dyi) == dyi * dyi) by (nonlinear_arith);
            assert(udx as int * udx as int <= 1_000_000int) by (nonlinear_arith)
                requires 0 <= (udx as int) <= 1_000int;
            assert(udy as int * udy as int <= 1_000_000int) by (nonlinear_arith)
                requires 0 <= (udy as int) <= 1_000int;
            assert(udx as int >= 1 ==> udx as int * udx as int >= 1) by (nonlinear_arith);
            assert(udy as int >= 1 ==> udy as int * udy as int >= 1) by (nonlinear_arith);
        }
        let sq: u64 = udx * udx + udy * udy;
        let li: u64 = isqrt(sq);
        proof {
            lemma_isqrt_exact(sq as int, li as int);
            assert(li as int <= 1_415int) by (nonlinear_arith)
                requires
                    li as int * li as int <= 2_000_000int,
                    0 <= li as int;
        }
        let lsq: u64 = li * li;
        let l: u64 = if lsq == sq {
            li
        } else {
            li + 1
        };
        proof {
            assert(sq as int <= l as int * l as int);
            assert(l >= 1);
        }
        let rx: i64 = rescale_floor(direction_x, t, l as i64);
        let ry: i64 = rescale_floor(direction_y, t, l as i64);
        proof {
            let li2 = l as int;
            let ti = t as int;
            lemma_abs_mul_le(direction_x as int, ti, 1_000, 64_000);
            lemma_abs_mul_le(direction_y as int, ti, 1_000, 64_000);
            lemma_rescale_floor_mag_le(udx as int, udy as int, ti, li2);
            assert((-(udx as int)) * ti == -(udx as int * ti)) by (nonlinear_arith);
            assert((-(udy as int)) * ti == -(udy as int * ti)) by (nonlinear_arith);
            assert((-((udx as int * ti) / li2)) * (-((udx as int * ti) / li2))
                == ((udx as int * ti) / li2) * ((udx as int * ti) / li2)) by (nonlinear_arith);
            assert((-((udy as int * ti) / li2)) * (-((udy as int * ti) / li2))
                == ((udy as int * ti) / li2) * ((udy as int * ti) / li2)) by (nonlinear_arith);
        }
        Vec2Fx { x: rx, y: ry }
    }
}

/// Handles knocking the pet when the knock key is pressed: a random
/// direction with a random strength up to twice the push strength,
/// scaled by the sprite scale, is added to the velocity (saturating).
/// Without a key press nothing changes. By design the knock ignores the
/// push cooldown; only cursor pushes are gated by it.
pub fn fixed_update_spacebar_knocking(velocity: &mut Velocity, space_just_pressed: bool)
    requires
        old(velocity).wf(),
    ensures
        !space_just_pressed ==> *final(velocity) == *old(velocity),
        space_just_pressed ==> exists|dx: int, dy: int, s: int|
            {
                &&& -(FX_ONE as int) <= dx <= FX_ONE as int
                &&& -(FX_ONE as int) <= dy <= FX_ONE as int
                &&& 0 <= s <= 2 * PUSH_STRENGTH_FX as int
                &&& final(velocity).0.x as int == spec_vel_after_impulse(
                    old(velocity).0.x as int, #[trigger] spec_knock_impulse(dx, dy, s).0)
                &&& final(velocity).0.y as int == spec_vel_after_impulse(
                    old(velocity).0.y as int, spec_knock_impulse(dx, dy, s).1)
            },
        final(velocity).wf(),
{
    if space_just_pressed {
        let dx: i64 = random_in_range(-FX_ONE, FX_ONE);
        let dy: i64 = random_in_range(-FX_ONE, FX_ONE);
        let s: i64 = random_in_range(0, 2 * PUSH_STRENGTH_FX);
        let impulse: Vec2Fx = knock_impulse(dx, dy, s);
        apply_impulse(velocity, impulse);
        proof {
            assert(-(FX_ONE as int) <= dx as int <= FX_ONE as int
                && -(FX_ONE as int) <= dy as int <= FX_ONE as int
                && 0 <= s as int <= 2 * PUSH_STRENGTH_FX as int
                && final(velocity).0.x as int == spec_vel_after_impulse(
                    old(velocity).0.x as int, spec_knock_impulse(dx as int, dy as int, s as int).0)
                && final(velocity).0.y as int == spec_vel_after_impulse(
                    old(velocity).0.y as int, spec_knock_impulse(dx as int, dy as int, s as int).1));
        }
    }
}

/// Handles updating the pet's velocity from cursor movement. While the
/// push cooldown runs, it only counts down (never below zero) and the
/// events are left alone. Otherwise, with at least two cursor positions
/// recorded this tick, the drag from the first to the last becomes an
/// impulse of at least the minimum push magnitude and the cooldown
/// restarts; with fewer events nothing changes.
pub fn fixed_update_mouse_collision(
    velocity: &mut Velocity,
    push_delay: &mut PushDelay,
    cursor_moved_events: &Vec<Vec2Fx>,
    dt: i64,
)
    requires
        old(velocity).wf(),
        old(push_delay).wf(),
        0 <= dt <= DT_LIMIT_FX,
        forall|i: int| 0 <= i < cursor_moved_events@.len()
            ==> (#[trigger] cursor_moved_events@[i]).within(CURSOR_LIMIT_FX as int),
    ensures
        old(push_delay).0 > 0 ==> {
            &&& final(push_delay).0 as int == (
                if old(push_delay).0 - dt >= 0 { old(push_delay).0 - dt } else { 0int })
            &&& *final(velocity) == *old(velocity)
        },
        old(push_delay).0 <= 0 && cursor_moved_events@.len() < 2 ==> {
            &&& *final(push_delay) == *old(push_delay)
            &&& *final(velocity) == *old(velocity)
        },
        old(push_delay).0 <= 0 && cursor_moved_events@.len() >= 2 ==> {
            let first = cursor_moved_events@[0];
            let last = cursor_moved_events@[cursor_moved_events@.len() - 1];
            let impulse = spec_drag_impulse(
                last.x as int - first.x as int, last.y as int - first.y as int);
            &&& final(velocity).0.x as int == spec_vel_after_impulse(
                old(velocity).0.x as int, impulse.0)
            &&& final(velocity).0.y as int == spec_vel_after_impulse(
                old(velocity).0.y as int, impulse.1)
            &&& final(push_delay).0 == PUSH_DELAY_FX
        },
        final(velocity).wf(),
        final(push_delay).wf(),
{
    if push_delay.0 > 0 {
        let remaining: i64 = push_delay.0 - dt;
        push_delay.0 = if remaining < 0 {
            0
        } else {
            remaining
        };
        return;
    }

    let event_count: usize = cursor_moved_events.len();
    if event_count >= 2 {
        let first: Vec2Fx = cursor_moved_events[0];
        let last: Vec2Fx = cursor_moved_events[event_count - 1];
        let delta = Vec2Fx { x: last.x - first.x, y: last.y - first.y };
        let impulse: Vec2Fx = drag_impulse(delta);
        apply_impulse(velocity, impulse);
        push_delay.0 = PUSH_DELAY_FX;
    }
}

} // verus!
