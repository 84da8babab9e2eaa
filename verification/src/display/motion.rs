//! The rule by which a drawn corner follows its target, as mathematics, and
//! what follows from it.
//!
//! Each corner carries a velocity between [`VELOCITY_FLOOR`] and
//! [`ONE`]: the share of the remaining way that it covers in one frame. Every
//! frame the velocity decays by a tenth and gains a tenth of the frame's
//! energy, the squared distance to the target over the squared diagonal of the
//! viewport. The floor keeps a corner moving however small the energy; a jump
//! across the screen raises the velocity and is caught up with quickly.
use vstd::prelude::*;
use crate::fixed::{
    abs,
    clamp,
    lemma_nearest_bounds,
    lemma_nearest_cancel,
    lemma_nearest_exact,
    lemma_nearest_shift,
    nearest,
    ONE,
};

verus! {

/// The smallest velocity of a corner: a fifth of the remaining way per frame.
pub const VELOCITY_FLOOR: i64 = 200_000;

/// A corner closer than this to its target, along both axes, is at rest:
/// rounding may keep it from coming any closer.
pub const REST: i64 = 3;

/// One corner of the cursor: where it is drawn, and its velocity.
pub struct Corner {
    pub x: int,
    pub y: int,
    pub velocity: int,
}

/// The squared distance between two points.
pub open spec fn distance_sq(x: int, y: int, tx: int, ty: int) -> int {
    (tx - x) * (tx - x) + (ty - y) * (ty - y)
}

/// The velocity after a frame in which the corner, at velocity `v`, was
/// `distance_sq` from its target: nine tenths of `v` and a tenth of the
/// energy, held to the interval from the floor to one.
pub open spec fn next_velocity(v: int, distance_sq: int, diagonal_sq: int) -> int {
    clamp(
        nearest(9 * v * diagonal_sq + ONE * distance_sq, 10 * diagonal_sq),
        VELOCITY_FLOOR as int,
        ONE as int,
    )
}

/// The point that lies the share `v` of the way from `p` to `t`.
pub open spec fn blend(p: int, t: int, v: int) -> int {
    nearest(p * (ONE - v) + t * v, ONE as int)
}

/// The corner one frame later, its target at `(tx, ty)`.
pub open spec fn step(c: Corner, tx: int, ty: int, diagonal_sq: int) -> Corner {
    let v = next_velocity(c.velocity, distance_sq(c.x, c.y, tx, ty), diagonal_sq);
    Corner { x: blend(c.x, tx, v), y: blend(c.y, ty, v), velocity: v }
}

/// The corner `frames` frames later, its target held at `(tx, ty)`.
pub open spec fn run(c: Corner, tx: int, ty: int, diagonal_sq: int, frames: nat) -> Corner
    decreases frames,
{
    if frames == 0 {
        c
    } else {
        run(step(c, tx, ty, diagonal_sq), tx, ty, diagonal_sq, (frames - 1) as nat)
    }
}

/// Whether the corner is within [`REST`] of `(tx, ty)` along both axes.
pub open spec fn at_rest(c: Corner, tx: int, ty: int) -> bool {
    abs(tx - c.x) < REST && abs(ty - c.y) < REST
}

/// A velocity is never below the floor nor above one after a frame, whatever
/// the velocity before and however far the target.
pub proof fn lemma_velocity_in_domain(v: int, distance_sq: int, diagonal_sq: int)
    ensures
        VELOCITY_FLOOR <= next_velocity(v, distance_sq, diagonal_sq) <= ONE,
{
}

/// A corner moves toward its target and never past it; what is left of the
/// way afterwards is at most four fifths of what it was, and half a unit.
pub proof fn lemma_blend_approaches(p: int, t: int, v: int)
    requires
        VELOCITY_FLOOR <= v <= ONE,
    ensures
        p <= t ==> p <= blend(p, t, v) <= t,
        t <= p ==> t <= blend(p, t, v) <= p,
        10 * abs(t - blend(p, t, v)) <= 8 * abs(t - p) + 5,
{
    let d = t - p;
    let s = nearest(d * v, ONE as int);
    assert(p * (ONE - v) + t * v == d * v + p * ONE) by (nonlinear_arith)
        requires
            d == t - p,
    ;
    lemma_nearest_shift(d * v, p, ONE as int);
    assert(blend(p, t, v) == p + s);
    lemma_nearest_bounds(d * v, ONE as int);
    if d >= 0 {
        assert(d * VELOCITY_FLOOR <= d * v <= d * ONE) by (nonlinear_arith)
            requires
                d >= 0,
                VELOCITY_FLOOR <= v <= ONE,
        ;
    } else {
        assert(d * ONE <= d * v <= d * VELOCITY_FLOOR) by (nonlinear_arith)
            requires
                d < 0,
                VELOCITY_FLOOR <= v <= ONE,
        ;
    }
    assert((2 * s - 1) * ONE == 2 * s * ONE - ONE) by (nonlinear_arith);
    assert((2 * s + 1) * ONE == 2 * s * ONE + ONE) by (nonlinear_arith);
}

/// A corner that is on its target stays there, and its velocity decays by a
/// tenth, down to the floor.
pub proof fn lemma_on_target(c: Corner, diagonal_sq: int)
    requires
        diagonal_sq > 0,
    ensures
        step(c, c.x, c.y, diagonal_sq) == (Corner {
            x: c.x,
            y: c.y,
            velocity: clamp(nearest(9 * c.velocity, 10), VELOCITY_FLOOR as int, ONE as int),
        }),
{
    let v = c.velocity;
    assert(distance_sq(c.x, c.y, c.x, c.y) == 0);
    assert(9 * v * diagonal_sq + ONE * 0 == (9 * v) * diagonal_sq) by (nonlinear_arith);
    lemma_nearest_cancel(9 * v, 10, diagonal_sq);
    let w = next_velocity(v, 0, diagonal_sq);
    assert(w == clamp(nearest(9 * v, 10), VELOCITY_FLOOR as int, ONE as int));
    assert(c.x * (ONE - w) + c.x * w == c.x * ONE) by (nonlinear_arith);
    lemma_nearest_exact(c.x, ONE as int);
    assert(c.y * (ONE - w) + c.y * w == c.y * ONE) by (nonlinear_arith);
    lemma_nearest_exact(c.y, ONE as int);
}

/// One frame leaves a corner between where it was and its target, no farther
/// from the target along either axis, and closer along each axis on which it
/// was not yet within [`REST`]; so the distance to the target shrinks in every
/// frame that starts out of rest.
pub proof fn lemma_step_approaches(c: Corner, tx: int, ty: int, diagonal_sq: int)
    ensures
        ({
            let n = step(c, tx, ty, diagonal_sq);
            &&& c.x <= tx ==> c.x <= n.x <= tx
            &&& tx <= c.x ==> tx <= n.x <= c.x
            &&& c.y <= ty ==> c.y <= n.y <= ty
            &&& ty <= c.y ==> ty <= n.y <= c.y
            &&& abs(tx - n.x) <= abs(tx - c.x)
            &&& abs(ty - n.y) <= abs(ty - c.y)
            &&& 10 * abs(tx - n.x) <= 8 * abs(tx - c.x) + 5
            &&& 10 * abs(ty - n.y) <= 8 * abs(ty - c.y) + 5
            &&& distance_sq(n.x, n.y, tx, ty) <= distance_sq(c.x, c.y, tx, ty)
            &&& !at_rest(c, tx, ty) ==> distance_sq(n.x, n.y, tx, ty) < distance_sq(
                c.x,
                c.y,
                tx,
                ty,
            )
        }),
{
    let n = step(c, tx, ty, diagonal_sq);
    lemma_blend_approaches(c.x, tx, n.velocity);
    lemma_blend_approaches(c.y, ty, n.velocity);
    let (ax, ay) = (abs(tx - c.x), abs(ty - c.y));
    let (bx, by) = (abs(tx - n.x), abs(ty - n.y));
    assert((tx - c.x) * (tx - c.x) == ax * ax) by (nonlinear_arith)
        requires
            ax == abs(tx - c.x),
    ;
    assert((ty - c.y) * (ty - c.y) == ay * ay) by (nonlinear_arith)
        requires
            ay == abs(ty - c.y),
    ;
    assert((tx - n.x) * (tx - n.x) == bx * bx) by (nonlinear_arith)
        requires
            bx == abs(tx - n.x),
    ;
    assert((ty - n.y) * (ty - n.y) == by * by) by (nonlinear_arith)
        requires
            by == abs(ty - n.y),
    ;
    assert(bx * bx <= ax * ax && (bx < ax ==> bx * bx < ax * ax)) by (nonlinear_arith)
        requires
            0 <= bx <= ax,
    ;
    assert(by * by <= ay * ay && (by < ay ==> by * by < ay * ay)) by (nonlinear_arith)
        requires
            0 <= by <= ay,
    ;
}

/// A corner at rest stays at rest.
pub proof fn lemma_rest_is_kept(c: Corner, tx: int, ty: int, diagonal_sq: int, frames: nat)
    requires
        at_rest(c, tx, ty),
    ensures
        at_rest(run(c, tx, ty, diagonal_sq, frames), tx, ty),
    decreases frames,
{
    if frames > 0 {
        lemma_step_approaches(c, tx, ty, diagonal_sq);
        lemma_rest_is_kept(
            step(c, tx, ty, diagonal_sq),
            tx,
            ty,
            diagonal_sq,
            (frames - 1) as nat,
        );
    }
}

/// Held on one target, a corner comes to rest, from wherever it starts and
/// at whatever velocity: the result is a number of frames after which it is
/// within [`REST`] of the target, and it is no larger than the distance
/// that the corner started at, taken along the axes.
pub proof fn lemma_comes_to_rest(c: Corner, tx: int, ty: int, diagonal_sq: int) -> (frames: nat)
    ensures
        at_rest(run(c, tx, ty, diagonal_sq, frames), tx, ty),
        frames <= abs(tx - c.x) + abs(ty - c.y),
    decreases abs(tx - c.x) + abs(ty - c.y),
{
    if at_rest(c, tx, ty) {
        0
    } else {
        lemma_step_approaches(c, tx, ty, diagonal_sq);
        let rest = lemma_comes_to_rest(step(c, tx, ty, diagonal_sq), tx, ty, diagonal_sq);
        rest + 1
    }
}

} // verus!
