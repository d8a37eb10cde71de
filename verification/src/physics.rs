//! Pure geometry and motion arithmetic: straight-line motion, the paddle
//! clamp, velocity escalation on a bounce, and rectangle overlap.

use vstd::prelude::*;
use crate::components::Position;

verus! {

/// Magnitude of a velocity component.
pub open spec fn magnitude(v: int) -> int {
    if v < 0 {
        -v
    } else {
        v
    }
}

/// A coordinate after straight-line motion: position `x` microunits, velocity
/// `d` units per second, elapsed time `dt` microseconds.
pub open spec fn moved(x: int, d: int, dt: int) -> int {
    x + d * dt
}

/// Whether one coordinate's motion arithmetic stays inside `i64`.
pub open spec fn motion_fits(x: int, d: int, dt: int) -> bool {
    &&& i64::MIN <= d * dt <= i64::MAX
    &&& i64::MIN <= x + d * dt <= i64::MAX
}

/// One coordinate of the integrator: advances `x` by `d * dt`.
pub fn move_coord(x: i64, d: i64, dt: i64) -> (r: i64)
    requires
        motion_fits(x as int, d as int, dt as int),
    ensures
        r == moved(x as int, d as int, dt as int),
{
    x + d * dt
}

/// Law: straight-line motion composes additively; integrating for `dt1` and
/// then for `dt2` lands exactly where a single integration for `dt1 + dt2`
/// does.
pub proof fn lemma_motion_additive(x: int, d: int, dt1: int, dt2: int)
    requires
        dt1 > 0,
        dt2 > 0,
    ensures
        moved(moved(x, d, dt1), d, dt2) == moved(x, d, dt1 + dt2),
{
    assert(d * dt1 + d * dt2 == d * (dt1 + dt2)) by (nonlinear_arith);
}

/// A paddle y coordinate clamped to keep the whole paddle of height `h`
/// inside a field of height `field_h`.
pub open spec fn clamp_spec(y: int, h: int, field_h: int) -> int {
    if y < 0 {
        0
    } else if y + h > field_h {
        field_h - h
    } else {
        y
    }
}

/// Paddle confinement: a hard clamp of the paddle's y coordinate; the
/// paddle's velocity is untouched by it.
pub fn clamp_paddle_y(y: i64, height: i64, field_h: i64) -> (r: i64)
    requires
        0 < height <= field_h,
    ensures
        r == clamp_spec(y as int, height as int, field_h as int),
{
    if y < 0 {
        0
    } else if y > field_h - height {
        field_h - height
    } else {
        y
    }
}

/// Law: the clamped coordinate always lies between 0 and `field_h - h`.
pub proof fn lemma_clamp_confines(y: int, h: int, field_h: int)
    requires
        0 < h <= field_h,
    ensures
        0 <= clamp_spec(y, h, field_h) <= field_h - h,
{
}

/// Law: clamping is idempotent; clamping twice equals clamping once.
pub proof fn lemma_clamp_idempotent(y: int, h: int, field_h: int)
    requires
        0 < h <= field_h,
    ensures
        clamp_spec(clamp_spec(y, h, field_h), h, field_h) == clamp_spec(y, h, field_h),
{
}

/// The escalation step: pushes a velocity component further from zero by
/// `amount`, in the direction of its current sign.
pub open spec fn accelerate_spec(v: int, amount: int) -> int {
    if v < 0 {
        v - amount
    } else {
        v + amount
    }
}

/// A velocity component after a bounce: sign inverted, then escalated by
/// `boost` away from zero.
pub open spec fn bounced(v: int, boost: int) -> int {
    accelerate_spec(-v, boost)
}

/// Pushes a velocity component further from zero by `amount`.
pub fn accelerate(v: i64, amount: i64) -> (r: i64)
    requires
        0 <= amount,
        i64::MIN + amount <= v,
        v + amount <= i64::MAX,
    ensures
        r == accelerate_spec(v as int, amount as int),
{
    if v < 0 {
        v - amount
    } else {
        v + amount
    }
}

/// Law: a bounce inverts the sign of the velocity component and, with
/// escalation, its new magnitude is the old magnitude plus `boost` exactly.
pub proof fn lemma_bounce_inverts_and_escalates(v: int, boost: int)
    requires
        0 <= boost,
    ensures
        magnitude(bounced(v, boost)) == magnitude(v) + boost,
        v > 0 ==> bounced(v, boost) < 0,
        v < 0 ==> bounced(v, boost) > 0,
{
}

/// Strict axis-aligned rectangle overlap: the shared area is not empty, so
/// rectangles that merely touch along an edge do not overlap.
pub open spec fn overlaps_spec(a: Position, b: Position) -> bool {
    &&& a.x < b.x + b.width
    &&& b.x < a.x + a.width
    &&& a.y < b.y + b.height
    &&& b.y < a.y + a.height
}

/// Axis-aligned rectangle overlap test between two bodies.
pub fn overlaps(a: &Position, b: &Position) -> (r: bool)
    requires
        0 < a.width,
        0 < a.height,
        0 < b.width,
        0 < b.height,
        a.x + a.width <= i64::MAX,
        a.y + a.height <= i64::MAX,
        b.x + b.width <= i64::MAX,
        b.y + b.height <= i64::MAX,
    ensures
        r == overlaps_spec(*a, *b),
{
    a.x < b.x + b.width && b.x < a.x + a.width && a.y < b.y + b.height && b.y < a.y + a.height
}

} // verus!
