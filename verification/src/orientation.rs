//! Tri-state classification of a point against a directed line, and the
//! exact comparison of sweep angles that arc overlap tests are built on.
//!
//! Over integer ticks the classifying value is always a real number, so the
//! fatal "not a number" failure class of a floating-point orientation test
//! cannot arise here.

use vstd::prelude::*;

use crate::frames::Vector;
use crate::math::mul_wide;

verus! {

#[derive(Clone, Copy, Debug, PartialEq, Eq, Structural)]
pub enum Orientation {
    Clockwise,
    Counterclockwise,
    Colinear,
}

impl Orientation {
    /// The classification seen when the directed line is reversed.
    pub open spec fn reversed(self) -> Orientation {
        match self {
            Orientation::Clockwise => Orientation::Counterclockwise,
            Orientation::Counterclockwise => Orientation::Clockwise,
            Orientation::Colinear => Orientation::Colinear,
        }
    }
}

/// Classification by the sign of a cross product: positive is
/// counterclockwise, negative clockwise, zero colinear.
pub open spec fn orientation_of(cross: int) -> Orientation {
    if cross > 0 {
        Orientation::Counterclockwise
    } else if cross < 0 {
        Orientation::Clockwise
    } else {
        Orientation::Colinear
    }
}

/// Whether `v` lies in the open lower half-plane of `s`: its sweep angle
/// from `s`, taken counterclockwise in `[0, 2*pi)`, is greater than `pi`,
/// or equals `pi` exactly.
pub open spec fn in_second_half<F>(s: Vector<F>, v: Vector<F>) -> bool {
    s.spec_cross(v) < 0 || (s.spec_cross(v) == 0 && s.spec_dot(v) < 0 && !(v.x == 0 && v.y == 0))
}

/// Whether the counterclockwise sweep angle from `s` to `a` is strictly
/// smaller than the one from `s` to `b`, both measured in `[0, 2*pi)`.
/// Within one half-turn the cross product decides. The zero vector has no
/// direction; it is given sweep angle zero here, that is, treated as
/// aligned with `s` (an `atan2`-based formulation would instead give it
/// absolute angle zero and subtract the angle of `s`; the two agree except
/// when the query vector is zero and `s` does not point along the x axis).
pub open spec fn ccw_angle_lt<F>(s: Vector<F>, a: Vector<F>, b: Vector<F>) -> bool {
    if in_second_half(s, a) != in_second_half(s, b) {
        !in_second_half(s, a)
    } else {
        a.spec_cross(b) > 0 || (a.spec_cross(b) == 0 && a.spec_dot(b) < 0 && !in_second_half(s, a)
            && s.spec_dot(a) > 0)
    }
}

/// Executable form of [`ccw_angle_lt`].
pub fn ccw_angle_lt_exec<F>(s: Vector<F>, a: Vector<F>, b: Vector<F>) -> (r: bool)
    requires
        crate::math::abs_int(s.x as int) <= 2_000_000_000,
        crate::math::abs_int(s.y as int) <= 2_000_000_000,
        crate::math::abs_int(a.x as int) <= 2_000_000_000,
        crate::math::abs_int(a.y as int) <= 2_000_000_000,
        crate::math::abs_int(b.x as int) <= 2_000_000_000,
        crate::math::abs_int(b.y as int) <= 2_000_000_000,
    ensures
        r == ccw_angle_lt(s, a, b),
{
    let half_a = in_second_half_exec(s, a);
    let half_b = in_second_half_exec(s, b);
    if half_a != half_b {
        !half_a
    } else {
        proof {
            lemma_wide_products_small(a.x as int, a.y as int, b.x as int, b.y as int);
            lemma_wide_products_small(s.x as int, s.y as int, a.x as int, a.y as int);
        }
        let c = mul_wide(a.x, b.y) - mul_wide(a.y, b.x);
        let d = mul_wide(a.x, b.x) + mul_wide(a.y, b.y);
        let sa = mul_wide(s.x, a.x) + mul_wide(s.y, a.y);
        c > 0 || (c == 0 && d < 0 && !half_a && sa > 0)
    }
}

/// Products of components within two billion ticks stay far inside `i128`.
pub(crate) proof fn lemma_wide_products_small(ux: int, uy: int, vx: int, vy: int)
    requires
        crate::math::abs_int(ux) <= 2_000_000_000,
        crate::math::abs_int(uy) <= 2_000_000_000,
        crate::math::abs_int(vx) <= 2_000_000_000,
        crate::math::abs_int(vy) <= 2_000_000_000,
    ensures
        crate::math::abs_int(ux * vx) <= 4_000_000_000_000_000_000,
        crate::math::abs_int(ux * vy) <= 4_000_000_000_000_000_000,
        crate::math::abs_int(uy * vx) <= 4_000_000_000_000_000_000,
        crate::math::abs_int(uy * vy) <= 4_000_000_000_000_000_000,
{
    assert(forall|p: int, q: int|
        -2_000_000_000 <= p <= 2_000_000_000 && -2_000_000_000 <= q <= 2_000_000_000
            ==> -4_000_000_000_000_000_000 <= #[trigger] (p * q) <= 4_000_000_000_000_000_000)
        by (nonlinear_arith);
}

/// Executable form of [`in_second_half`].
pub fn in_second_half_exec<F>(s: Vector<F>, v: Vector<F>) -> (r: bool)
    requires
        crate::math::abs_int(s.x as int) <= 2_000_000_000,
        crate::math::abs_int(s.y as int) <= 2_000_000_000,
        crate::math::abs_int(v.x as int) <= 2_000_000_000,
        crate::math::abs_int(v.y as int) <= 2_000_000_000,
    ensures
        r == in_second_half(s, v),
{
    proof {
        lemma_wide_products_small(s.x as int, s.y as int, v.x as int, v.y as int);
    }
    let c = mul_wide(s.x, v.y) - mul_wide(s.y, v.x);
    let d = mul_wide(s.x, v.x) + mul_wide(s.y, v.y);
    c < 0 || (c == 0 && d < 0 && !(v.x == 0 && v.y == 0))
}

} // verus!
