//! Frame algebra: zero-sized frame tags and frame-tagged points and vectors.
//!
//! A frame tag is carried as a phantom type parameter, so mixing values from
//! two coordinate spaces is rejected at compile time and costs nothing at run
//! time. Coordinates are fixed-point ticks.

use core::marker::PhantomData;
use vstd::prelude::*;

use crate::math::{abs_int, COORD_LIMIT};

verus! {

/// Robot-relative frame with the robot's feet at the origin.
#[derive(Clone, Copy, Debug, PartialEq, Eq)]
pub struct Ground;

/// Field-absolute frame with the kick-off point at the origin.
#[derive(Clone, Copy, Debug, PartialEq, Eq)]
pub struct Field;

/// Camera image frame, in pixels.
#[derive(Clone, Copy, Debug, PartialEq, Eq)]
pub struct Pixel;

/// Camera-optical frame.
#[derive(Clone, Copy, Debug, PartialEq, Eq)]
pub struct Camera;

/// Head-relative frame.
#[derive(Clone, Copy, Debug, PartialEq, Eq)]
pub struct Head;

/// Torso-relative frame.
#[derive(Clone, Copy, Debug, PartialEq, Eq)]
pub struct Robot;

/// A position in the frame `F`, in ticks.
#[derive(Debug, PartialEq, Eq)]
#[verifier::reject_recursive_types(F)]
pub struct Point<F> {
    pub x: i64,
    pub y: i64,
    pub frame: PhantomData<F>,
}

/// A displacement in the frame `F`, in ticks.
#[derive(Debug, PartialEq, Eq)]
#[verifier::reject_recursive_types(F)]
pub struct Vector<F> {
    pub x: i64,
    pub y: i64,
    pub frame: PhantomData<F>,
}

/// Displacements that arise as differences of well-formed points stay within
/// twice the coordinate limit.
pub const VEC_LIMIT: i64 = 200_000_000;

impl<F> Copy for Point<F> {}

impl<F> Copy for Vector<F> {}

impl<F> Clone for Point<F> {
    fn clone(&self) -> (r: Self)
        ensures
            r == *self,
    {
        Point { x: self.x, y: self.y, frame: PhantomData }
    }
}

impl<F> Clone for Vector<F> {
    fn clone(&self) -> (r: Self)
        ensures
            r == *self,
    {
        Vector { x: self.x, y: self.y, frame: PhantomData }
    }
}

impl<F> Point<F> {
    pub open spec fn wf(self) -> bool {
        abs_int(self.x as int) <= COORD_LIMIT && abs_int(self.y as int) <= COORD_LIMIT
    }

    pub fn new(x: i64, y: i64) -> (r: Point<F>)
        ensures
            r.x == x,
            r.y == y,
    {
        Point { x, y, frame: PhantomData }
    }

    pub fn origin() -> (r: Point<F>)
        ensures
            r.x == 0,
            r.y == 0,
    {
        Point { x: 0, y: 0, frame: PhantomData }
    }

    /// The displacement from `other` to `self`.
    pub fn minus(self, other: Point<F>) -> (r: Vector<F>)
        requires
            self.wf(),
            other.wf(),
        ensures
            r.x == self.x - other.x,
            r.y == self.y - other.y,
            r.wf(),
    {
        Vector { x: self.x - other.x, y: self.y - other.y, frame: PhantomData }
    }

    pub fn plus(self, v: Vector<F>) -> (r: Point<F>)
        requires
            abs_int(self.x + v.x) <= VEC_LIMIT,
            abs_int(self.y + v.y) <= VEC_LIMIT,
        ensures
            r.x == self.x + v.x,
            r.y == self.y + v.y,
    {
        Point { x: self.x + v.x, y: self.y + v.y, frame: PhantomData }
    }

    /// The displacement of this point from its frame's origin.
    pub fn coords(self) -> (r: Vector<F>)
        ensures
            r.x == self.x,
            r.y == self.y,
    {
        Vector { x: self.x, y: self.y, frame: PhantomData }
    }

    /// Reinterprets the same coordinates in another frame; used only where a
    /// caller explicitly changes frames without geometric information.
    pub fn retagged<G>(self) -> (r: Point<G>)
        ensures
            r.x == self.x,
            r.y == self.y,
    {
        Point { x: self.x, y: self.y, frame: PhantomData }
    }
}

impl<F> Vector<F> {
    pub open spec fn wf(self) -> bool {
        abs_int(self.x as int) <= VEC_LIMIT && abs_int(self.y as int) <= VEC_LIMIT
    }

    pub open spec fn spec_dot(self, other: Vector<F>) -> int {
        self.x * other.x + self.y * other.y
    }

    pub open spec fn spec_cross(self, other: Vector<F>) -> int {
        self.x * other.y - self.y * other.x
    }

    pub open spec fn spec_norm_squared(self) -> int {
        self.x * self.x + self.y * self.y
    }

    pub fn new(x: i64, y: i64) -> (r: Vector<F>)
        ensures
            r.x == x,
            r.y == y,
    {
        Vector { x, y, frame: PhantomData }
    }

    pub fn zero() -> (r: Vector<F>)
        ensures
            r.x == 0,
            r.y == 0,
    {
        Vector { x: 0, y: 0, frame: PhantomData }
    }

    pub fn plus(self, other: Vector<F>) -> (r: Vector<F>)
        requires
            abs_int(self.x + other.x) <= i64::MAX,
            abs_int(self.y + other.y) <= i64::MAX,
        ensures
            r.x == self.x + other.x,
            r.y == self.y + other.y,
    {
        Vector { x: self.x + other.x, y: self.y + other.y, frame: PhantomData }
    }

    pub fn minus(self, other: Vector<F>) -> (r: Vector<F>)
        requires
            self.wf(),
            other.wf(),
        ensures
            r.x == self.x - other.x,
            r.y == self.y - other.y,
    {
        Vector { x: self.x - other.x, y: self.y - other.y, frame: PhantomData }
    }

    pub fn negated(self) -> (r: Vector<F>)
        requires
            self.wf(),
        ensures
            r.x == -self.x,
            r.y == -self.y,
            r.wf(),
    {
        Vector { x: -self.x, y: -self.y, frame: PhantomData }
    }

    pub fn dot(self, other: Vector<F>) -> (r: i64)
        requires
            self.wf(),
            other.wf(),
        ensures
            r == self.spec_dot(other),
    {
        proof {
            lemma_vec_products_bounded(self, other);
        }
        self.x * other.x + self.y * other.y
    }

    pub fn cross(self, other: Vector<F>) -> (r: i64)
        requires
            self.wf(),
            other.wf(),
        ensures
            r == self.spec_cross(other),
    {
        proof {
            lemma_vec_products_bounded(self, other);
        }
        self.x * other.y - self.y * other.x
    }

    pub fn norm_squared(self) -> (r: i64)
        requires
            self.wf(),
        ensures
            r == self.spec_norm_squared(),
            r >= 0,
    {
        proof {
            lemma_vec_products_bounded(self, self);
            assert(self.x * self.x >= 0 && self.y * self.y >= 0) by (nonlinear_arith);
        }
        self.x * self.x + self.y * self.y
    }

    /// Euclidean length, rounded down to whole ticks.
    pub fn norm(self) -> (r: i64)
        requires
            self.wf(),
        ensures
            r == crate::math::isqrt_spec(self.spec_norm_squared()),
            r * r <= self.spec_norm_squared() < (r + 1) * (r + 1),
            0 <= r <= VEC_LIMIT * 2,
    {
        let n = self.norm_squared();
        let r = crate::math::isqrt_u128(n as u128);
        proof {
            assert(r as int <= 2 * VEC_LIMIT) by (nonlinear_arith)
                requires
                    r >= 0,
                    (r as int) * (r as int) <= self.x * self.x + self.y * self.y,
                    -VEC_LIMIT <= self.x <= VEC_LIMIT,
                    -VEC_LIMIT <= self.y <= VEC_LIMIT,
                    VEC_LIMIT == 200_000_000int,
            ;
        }
        r as i64
    }

    /// The clockwise normal `(y, -x)`.
    pub fn perp_clockwise(self) -> (r: Vector<F>)
        requires
            self.wf(),
        ensures
            r.x == self.y,
            r.y == -self.x,
            r.wf(),
    {
        Vector { x: self.y, y: -self.x, frame: PhantomData }
    }

    /// Reinterprets the same coordinates in another frame.
    pub fn retagged<G>(self) -> (r: Vector<G>)
        ensures
            r.x == self.x,
            r.y == self.y,
    {
        Vector { x: self.x, y: self.y, frame: PhantomData }
    }
}

/// Products of the components of two bounded displacements fit comfortably
/// inside `i64`.
proof fn lemma_vec_products_bounded<F>(a: Vector<F>, b: Vector<F>)
    requires
        a.wf(),
        b.wf(),
    ensures
        abs_int(a.x * b.x) <= VEC_LIMIT * VEC_LIMIT,
        abs_int(a.x * b.y) <= VEC_LIMIT * VEC_LIMIT,
        abs_int(a.y * b.x) <= VEC_LIMIT * VEC_LIMIT,
        abs_int(a.y * b.y) <= VEC_LIMIT * VEC_LIMIT,
{
    assert(forall|p: int, q: int|
        abs_int(p) <= VEC_LIMIT && abs_int(q) <= VEC_LIMIT ==> abs_int(#[trigger] (p * q))
            <= VEC_LIMIT * VEC_LIMIT) by (nonlinear_arith);
}

/// The Lagrange identity behind the Cauchy-Schwarz inequality:
/// `dot(u,v)^2 + cross(u,v)^2 == |u|^2 * |v|^2`.
pub proof fn lemma_lagrange_identity<F>(u: Vector<F>, v: Vector<F>)
    ensures
        u.spec_dot(v) * u.spec_dot(v) + u.spec_cross(v) * u.spec_cross(v)
            == u.spec_norm_squared() * v.spec_norm_squared(),
{
    let ux = u.x as int;
    let uy = u.y as int;
    let vx = v.x as int;
    let vy = v.y as int;
    crate::math::lemma_square_expand(ux * vx, uy * vy);
    crate::math::lemma_square_expand(ux * vy, uy * vx);
    crate::math::lemma_mul_rearrange(ux, vx, ux, vx);
    crate::math::lemma_mul_rearrange(uy, vy, uy, vy);
    crate::math::lemma_mul_rearrange(ux, vy, ux, vy);
    crate::math::lemma_mul_rearrange(uy, vx, uy, vx);
    assert((ux * vx) * (uy * vy) == (ux * vy) * (uy * vx)) by (nonlinear_arith);
    crate::math::lemma_distribute(ux * ux, uy * uy, vx * vx, vy * vy);
}

/// The squared norm of a well-formed displacement is at most
/// `2 * VEC_LIMIT^2`.
pub proof fn lemma_norm_squared_bound<F>(v: Vector<F>)
    requires
        v.wf(),
    ensures
        0 <= v.spec_norm_squared() <= 80_000_000_000_000_000,
{
    assert(0 <= v.x * v.x + v.y * v.y <= 80_000_000_000_000_000) by (nonlinear_arith)
        requires
            -200_000_000 <= v.x <= 200_000_000,
            -200_000_000 <= v.y <= 200_000_000,
    ;
}

/// The squared distance between two points, exact.
pub open spec fn spec_dist_squared<F>(a: Point<F>, b: Point<F>) -> int {
    (b.x - a.x) * (b.x - a.x) + (b.y - a.y) * (b.y - a.y)
}

/// Squared distance does not depend on the order of its endpoints.
pub proof fn lemma_dist_squared_symmetric<F>(a: Point<F>, b: Point<F>)
    ensures
        spec_dist_squared(a, b) == spec_dist_squared(b, a),
{
    assert((b.x - a.x) * (b.x - a.x) + (b.y - a.y) * (b.y - a.y) == (a.x - b.x) * (a.x - b.x) + (
    a.y - b.y) * (a.y - b.y)) by (nonlinear_arith);
}

/// Euclidean distance between two points, rounded down to whole ticks.
pub fn distance<F>(a: Point<F>, b: Point<F>) -> (r: i64)
    requires
        a.wf(),
        b.wf(),
    ensures
        r == crate::math::isqrt_spec(spec_dist_squared(a, b)),
        r * r <= spec_dist_squared(a, b) < (r + 1) * (r + 1),
        0 <= r <= VEC_LIMIT * 2,
{
    b.minus(a).norm()
}

/// Squared distance between two points, exact.
pub fn dist_squared<F>(a: Point<F>, b: Point<F>) -> (r: i64)
    requires
        a.wf(),
        b.wf(),
    ensures
        r == spec_dist_squared(a, b),
        r >= 0,
{
    b.minus(a).norm_squared()
}

} // verus!
