//! Fixed-point plane vectors and the scaling step of Euler integration.

use vstd::prelude::*;

verus! {

use crate::constants::{DT_LIMIT_MS, MILLIS_PER_SECOND, SPEED_LIMIT};
use vstd::arithmetic::div_mod::{
    lemma_div_is_ordered, lemma_div_multiples_vanish, lemma_div_pos_is_pos,
};
use vstd::arithmetic::mul::lemma_mul_inequality;

/// A plane vector in fixed-point world coordinates: each component counts
/// thousandths of a world unit (or of a world unit per second, for a
/// velocity).
#[derive(Clone, Copy, Debug, PartialEq, Eq, Structural)]
pub struct Vec2 {
    pub x: i64,
    pub y: i64,
}

/// The mathematical value of a [`Vec2`]: the same point with unbounded
/// integer components.
pub struct Vec2Model {
    pub x: int,
    pub y: int,
}

impl View for Vec2 {
    type V = Vec2Model;

    open spec fn view(&self) -> Vec2Model {
        Vec2Model { x: self.x as int, y: self.y as int }
    }
}

/// Magnitude of an integer.
pub open spec fn int_abs(a: int) -> int {
    if a >= 0 {
        a
    } else {
        -a
    }
}

/// The larger of two integers.
pub open spec fn int_max(a: int, b: int) -> int {
    if a >= b {
        a
    } else {
        b
    }
}

/// True when both components of `p` lie within `bound` of the origin.
pub open spec fn pos_within(p: Vec2Model, bound: int) -> bool {
    &&& -bound <= p.x <= bound
    &&& -bound <= p.y <= bound
}

/// Displacement travelled in `dt_ms` milliseconds at `v` milliunits per
/// second: `v * dt_ms / 1000`, with the division truncating the magnitude
/// (the result of a negative `v` is the negated result of its magnitude).
pub open spec fn scaled_by_millis(v: int, dt_ms: int) -> int {
    if v >= 0 {
        (v * dt_ms) / (MILLIS_PER_SECOND as int)
    } else {
        -(((-v) * dt_ms) / (MILLIS_PER_SECOND as int))
    }
}

/// Scaling by at most one second never raises a magnitude: the displacement
/// of one step stays within any speed bound the velocity satisfies.
pub proof fn lemma_scaled_by_millis_bound(v: int, dt_ms: int, bound: int)
    requires
        -bound <= v <= bound,
        0 <= dt_ms <= MILLIS_PER_SECOND as int,
    ensures
        -bound <= scaled_by_millis(v, dt_ms) <= bound,
        v >= 0 ==> 0 <= scaled_by_millis(v, dt_ms),
        v < 0 ==> scaled_by_millis(v, dt_ms) <= 0,
{
    let s = MILLIS_PER_SECOND as int;
    let m = int_abs(v);
    lemma_div_pos_is_pos(m * dt_ms, s);
    lemma_mul_inequality(dt_ms, s, m);
    lemma_div_is_ordered(m * dt_ms, m * s, s);
    lemma_div_multiples_vanish(m, s);
}

/// One factor of an Euler step: the displacement travelled in `dt_ms`
/// milliseconds at a signed fixed-point velocity `v`.
pub fn scale_by_millis(v: i64, dt_ms: u64) -> (r: i64)
    requires
        -SPEED_LIMIT <= v <= SPEED_LIMIT,
        dt_ms <= DT_LIMIT_MS,
    ensures
        r == scaled_by_millis(v as int, dt_ms as int),
        -SPEED_LIMIT <= r <= SPEED_LIMIT,
{
    proof {
        lemma_scaled_by_millis_bound(v as int, dt_ms as int, SPEED_LIMIT as int);
    }
    if v >= 0 {
        let prod: u64 = (v as u64) * dt_ms;
        (prod / MILLIS_PER_SECOND) as i64
    } else {
        let prod: u64 = ((-v) as u64) * dt_ms;
        -((prod / MILLIS_PER_SECOND) as i64)
    }
}

} // verus!
