//! Rigid 2-D transforms between tagged frames: rotation as an exact integer
//! direction pair, translation in ticks.
//!
//! A rotation is stored as `(p, q, r)` and acts on a vector as the complex
//! product `(p + q i) * v / r`. The direction `(p, q)` is exact; `r` is the
//! integer square root of `p^2 + q^2`, so the scale factor lies in
//! `[1, 1 + 1/r)`. Composition multiplies the direction pairs exactly —
//! angles add with no rounding — and re-derives `r`; because of that, a
//! transform composed with its inverse is the identity exactly, not merely
//! within a tolerance (see [`lemma_inverse_composes_to_identity`]).

use core::marker::PhantomData;
use vstd::prelude::*;

use crate::frames::{Point, Vector};
use crate::math::{
    abs_int, div_round_i128, div_round_spec, isqrt_spec, isqrt_u128, lemma_div_round_mag,
    lemma_isqrt_spec_bounds, lemma_isqrt_unique, lemma_rot_norm, mul_wide, rot_x, rot_y,
};

verus! {

/// Largest translation magnitude a well-formed transform may carry.
pub const TRANS_LIMIT: i64 = 400_000_000_000_000_000;

/// Bound on the rotation hypotenuse of transforms that may be composed,
/// inverted or applied.
pub const ROT_LIMIT: i64 = 1_000_000_000;

/// Bound on the translation of transforms that may be composed or inverted.
pub const TRANS_INPUT_LIMIT: i64 = 4_000_000_000_000_000;

/// An unnormalized rotation: direction `(p, q)` with hypotenuse `r`.
#[derive(Clone, Copy, Debug, PartialEq, Eq, Structural)]
pub struct Rotation {
    pub p: i64,
    pub q: i64,
    pub r: i64,
}

impl Rotation {
    /// `r` is the rounded-down length of `(p, q)`, so the rotation scales
    /// lengths by a factor in `[1, 1 + 1/r)`.
    pub open spec fn wf(self) -> bool {
        &&& self.r >= 1
        &&& self.r * self.r <= self.p * self.p + self.q * self.q
        &&& self.p * self.p + self.q * self.q <= self.r * self.r + 2 * self.r
    }

    /// Small enough to be composed and applied without overflow.
    pub open spec fn bounded(self) -> bool {
        self.wf() && self.r <= ROT_LIMIT
    }

    /// Scale exactly one and direction along the positive x axis: acts as
    /// the identity on every vector.
    pub open spec fn is_identity(self) -> bool {
        self.q == 0 && self.p == self.r && self.r >= 1
    }

    pub fn identity() -> (r: Rotation)
        ensures
            r == (Rotation { p: 1i64, q: 0i64, r: 1i64 }),
            r.wf(),
            r.is_identity(),
    {
        Rotation { p: 1, q: 0, r: 1 }
    }

    /// The rotation that turns the positive x axis to point along `dir`.
    pub fn facing<F>(dir: Vector<F>) -> (r: Rotation)
        requires
            dir.wf(),
            dir.x != 0 || dir.y != 0,
        ensures
            r.p == dir.x,
            r.q == dir.y,
            r.r == isqrt_spec(dir.spec_norm_squared()),
            r.wf(),
            r.bounded(),
    {
        let nsq = dir.norm_squared();
        proof {
            assert(nsq >= 1) by (nonlinear_arith)
                requires
                    nsq == dir.x * dir.x + dir.y * dir.y,
                    dir.x != 0 || dir.y != 0,
            ;
            crate::frames::lemma_norm_squared_bound(dir);
        }
        let r = isqrt_u128(nsq as u128);
        proof {
            assert(r as int <= 300_000_000) by (nonlinear_arith)
                requires
                    r >= 0,
                    (r as int) * (r as int) <= nsq as int,
                    nsq <= 80_000_000_000_000_000,
            ;
            assert((r as int + 1) * (r as int + 1) == (r as int) * (r as int) + 2 * (r as int) + 1)
                by (nonlinear_arith);
            assert(nsq == dir.x * dir.x + dir.y * dir.y);
            assert((r as i64) as int == r as int);
        }
        proof {
            assert(r as int >= 1) by (nonlinear_arith)
                requires
                    nsq >= 1,
                    r >= 0,
                    (nsq as int) < (r as int + 1) * (r as int + 1),
            ;
        }
        Rotation { p: dir.x, q: dir.y, r: r as i64 }
    }

    /// The wellformedness bound keeps both components within `r + 1`.
    pub proof fn lemma_components_bounded(self)
        requires
            self.wf(),
        ensures
            abs_int(self.p as int) <= self.r,
            abs_int(self.q as int) <= self.r,
    {
        assert(abs_int(self.p as int) <= self.r && abs_int(self.q as int) <= self.r)
            by (nonlinear_arith)
            requires
                self.r >= 1,
                self.p * self.p + self.q * self.q <= self.r * self.r + 2 * self.r,
        ;
    }
}

/// A rigid map from frame `Src` to frame `Dst`: rotate, then translate by
/// `(x, y)` ticks in the destination frame.
#[derive(Debug, PartialEq, Eq)]
#[verifier::reject_recursive_types(Src)]
#[verifier::reject_recursive_types(Dst)]
pub struct Transform<Src, Dst> {
    pub rot: Rotation,
    pub x: i64,
    pub y: i64,
    pub src: PhantomData<Src>,
    pub dst: PhantomData<Dst>,
}

impl<Src, Dst> Copy for Transform<Src, Dst> {}

impl<Src, Dst> Clone for Transform<Src, Dst> {
    fn clone(&self) -> (r: Self)
        ensures
            r == *self,
    {
        Transform { rot: self.rot, x: self.x, y: self.y, src: PhantomData, dst: PhantomData }
    }
}

/// X coordinate of `t` applied to the point `(x, y)`.
pub open spec fn spec_apply_x<Src, Dst>(t: Transform<Src, Dst>, x: int, y: int) -> int {
    t.x + div_round_spec(rot_x(t.rot.p as int, t.rot.q as int, x, y), t.rot.r as int)
}

/// Y coordinate of `t` applied to the point `(x, y)`.
pub open spec fn spec_apply_y<Src, Dst>(t: Transform<Src, Dst>, x: int, y: int) -> int {
    t.y + div_round_spec(rot_y(t.rot.p as int, t.rot.q as int, x, y), t.rot.r as int)
}

/// X component of `t`'s rotation applied to the displacement `(x, y)`.
pub open spec fn spec_rotate_x<Src, Dst>(t: Transform<Src, Dst>, x: int, y: int) -> int {
    div_round_spec(rot_x(t.rot.p as int, t.rot.q as int, x, y), t.rot.r as int)
}

/// Y component of `t`'s rotation applied to the displacement `(x, y)`.
pub open spec fn spec_rotate_y<Src, Dst>(t: Transform<Src, Dst>, x: int, y: int) -> int {
    div_round_spec(rot_y(t.rot.p as int, t.rot.q as int, x, y), t.rot.r as int)
}

/// The inverse map: conjugate rotation, translation rotated back and
/// negated, rounded once per component.
pub open spec fn spec_inverse<Src, Dst>(t: Transform<Src, Dst>) -> Transform<Dst, Src> {
    Transform {
        rot: Rotation { p: t.rot.p, q: (-t.rot.q) as i64, r: t.rot.r },
        x: (-div_round_spec(
            rot_x(t.rot.p as int, -t.rot.q as int, t.x as int, t.y as int),
            t.rot.r as int,
        )) as i64,
        y: (-div_round_spec(
            rot_y(t.rot.p as int, -t.rot.q as int, t.x as int, t.y as int),
            t.rot.r as int,
        )) as i64,
        src: t.dst,
        dst: t.src,
    }
}

/// Applying `a` after `b`: rotation directions multiply exactly as complex
/// numbers, the hypotenuse is re-derived, and `b`'s translation is carried
/// through `a`.
pub open spec fn spec_compose<A, B, C>(a: Transform<B, C>, b: Transform<A, B>) -> Transform<A, C> {
    let p3 = rot_x(a.rot.p as int, a.rot.q as int, b.rot.p as int, b.rot.q as int);
    let q3 = rot_y(a.rot.p as int, a.rot.q as int, b.rot.p as int, b.rot.q as int);
    Transform {
        rot: Rotation { p: p3 as i64, q: q3 as i64, r: isqrt_spec(p3 * p3 + q3 * q3) as i64 },
        x: (a.x + div_round_spec(
            rot_x(a.rot.p as int, a.rot.q as int, b.x as int, b.y as int),
            a.rot.r as int,
        )) as i64,
        y: (a.y + div_round_spec(
            rot_y(a.rot.p as int, a.rot.q as int, b.x as int, b.y as int),
            a.rot.r as int,
        )) as i64,
        src: b.src,
        dst: a.dst,
    }
}

impl<Src, Dst> Transform<Src, Dst> {
    pub open spec fn wf(self) -> bool {
        &&& self.rot.wf()
        &&& abs_int(self.x as int) <= TRANS_LIMIT
        &&& abs_int(self.y as int) <= TRANS_LIMIT
    }

    /// Small enough to be composed, inverted and applied without overflow;
    /// holds of every transform built from field-scale data.
    pub open spec fn bounded(self) -> bool {
        &&& self.rot.bounded()
        &&& abs_int(self.x as int) <= TRANS_INPUT_LIMIT
        &&& abs_int(self.y as int) <= TRANS_INPUT_LIMIT
    }

    /// The exact identity map.
    pub open spec fn is_identity(self) -> bool {
        self.rot.is_identity() && self.x == 0 && self.y == 0
    }

    pub fn identity() -> (r: Transform<Src, Dst>)
        ensures
            r.is_identity(),
            r.wf(),
            r.bounded(),
            r.rot == (Rotation { p: 1i64, q: 0i64, r: 1i64 }),
            r.x == 0,
            r.y == 0,
    {
        Transform { rot: Rotation::identity(), x: 0, y: 0, src: PhantomData, dst: PhantomData }
    }

    /// A pose: translation to `pos` with the x axis turned along `dir`.
    pub fn from_position_and_direction(pos: Point<Dst>, dir: Vector<Dst>) -> (r: Transform<
        Src,
        Dst,
    >)
        requires
            pos.wf(),
            dir.wf(),
            dir.x != 0 || dir.y != 0,
        ensures
            r.x == pos.x,
            r.y == pos.y,
            r.rot.p == dir.x,
            r.rot.q == dir.y,
            r.rot.r == isqrt_spec(dir.spec_norm_squared()),
            r.wf(),
            r.bounded(),
    {
        Transform { rot: Rotation::facing(dir), x: pos.x, y: pos.y, src: PhantomData, dst: PhantomData }
    }

    /// Rotates and translates a point into the destination frame, each
    /// coordinate rounded once.
    pub fn apply_point(&self, pt: Point<Src>) -> (r: Point<Dst>)
        requires
            self.wf(),
            self.rot.bounded(),
            pt.wf(),
        ensures
            r.x == spec_apply_x(*self, pt.x as int, pt.y as int),
            r.y == spec_apply_y(*self, pt.x as int, pt.y as int),
            abs_int(r.x as int) <= abs_int(self.x as int) + abs_int(pt.x as int) + abs_int(
                pt.y as int,
            ),
            abs_int(r.y as int) <= abs_int(self.y as int) + abs_int(pt.x as int) + abs_int(
                pt.y as int,
            ),
    {
        let v = self.apply_vector(Vector::new(pt.x, pt.y));
        Point::new(self.x + v.x, self.y + v.y)
    }

    /// Rotates a displacement into the destination frame; translation does
    /// not apply to displacements.
    pub fn apply_vector(&self, v: Vector<Src>) -> (r: Vector<Dst>)
        requires
            self.rot.bounded(),
            v.wf(),
        ensures
            r.x == spec_rotate_x(*self, v.x as int, v.y as int),
            r.y == spec_rotate_y(*self, v.x as int, v.y as int),
            abs_int(r.x as int) <= abs_int(v.x as int) + abs_int(v.y as int),
            abs_int(r.y as int) <= abs_int(v.x as int) + abs_int(v.y as int),
    {
        proof {
            self.rot.lemma_components_bounded();
            lemma_rot_apply_bound(
                self.rot.p as int,
                self.rot.q as int,
                self.rot.r as int,
                v.x as int,
                v.y as int,
            );
        }
        let num_x = mul_wide(self.rot.p, v.x) - mul_wide(self.rot.q, v.y);
        let num_y = mul_wide(self.rot.p, v.y) + mul_wide(self.rot.q, v.x);
        let rx = div_round_i128(num_x, self.rot.r as i128);
        let ry = div_round_i128(num_y, self.rot.r as i128);
        Vector::new(rx as i64, ry as i64)
    }

    /// The inverse transform; see [`spec_inverse`].
    pub fn inverse(&self) -> (r: Transform<Dst, Src>)
        requires
            self.bounded(),
        ensures
            r == spec_inverse(*self),
            r.wf(),
            r.rot.bounded(),
            abs_int(r.x as int) <= abs_int(self.x as int) + abs_int(self.y as int),
            abs_int(r.y as int) <= abs_int(self.x as int) + abs_int(self.y as int),
    {
        proof {
            self.rot.lemma_components_bounded();
            lemma_rot_apply_bound(
                self.rot.p as int,
                -self.rot.q as int,
                self.rot.r as int,
                self.x as int,
                self.y as int,
            );
            assert((-self.rot.q) * (-self.rot.q) == self.rot.q * self.rot.q) by (nonlinear_arith);
            assert(rot_x(self.rot.p as int, -self.rot.q as int, self.x as int, self.y as int)
                == self.rot.p * self.x + self.rot.q * self.y && rot_y(
                self.rot.p as int,
                -self.rot.q as int,
                self.x as int,
                self.y as int,
            ) == self.rot.p * self.y - self.rot.q * self.x) by (nonlinear_arith);
            assert(forall|a: int, b: int|
                -1_000_000_000 <= a <= 1_000_000_000 && -4_000_000_000_000_000 <= b
                    <= 4_000_000_000_000_000 ==> -4_000_000_000_000_000_000_000_000 <= #[trigger] (
                a * b) <= 4_000_000_000_000_000_000_000_000) by (nonlinear_arith);
        }
        let num_x = mul_wide(self.rot.p, self.x) + mul_wide(self.rot.q, self.y);
        let num_y = mul_wide(self.rot.p, self.y) - mul_wide(self.rot.q, self.x);
        let tx = div_round_i128(num_x, self.rot.r as i128);
        let ty = div_round_i128(num_y, self.rot.r as i128);
        Transform {
            rot: Rotation { p: self.rot.p, q: -self.rot.q, r: self.rot.r },
            x: -(tx as i64),
            y: -(ty as i64),
            src: PhantomData,
            dst: PhantomData,
        }
    }
}

impl<B, C> Transform<B, C> {
    /// The composition `self` after `other`; see [`spec_compose`].
    pub fn compose<A>(&self, other: &Transform<A, B>) -> (r: Transform<A, C>)
        requires
            self.rot.bounded(),
            other.rot.bounded(),
            abs_int(self.x as int) <= 2 * TRANS_INPUT_LIMIT,
            abs_int(self.y as int) <= 2 * TRANS_INPUT_LIMIT,
            abs_int(other.x as int) <= 2 * TRANS_INPUT_LIMIT,
            abs_int(other.y as int) <= 2 * TRANS_INPUT_LIMIT,
        ensures
            r == spec_compose(*self, *other),
            r.wf(),
    {
        proof {
            self.rot.lemma_components_bounded();
            other.rot.lemma_components_bounded();
            lemma_rot_apply_bound(
                self.rot.p as int,
                self.rot.q as int,
                self.rot.r as int,
                other.x as int,
                other.y as int,
            );
            assert(forall|a: int, b: int|
                -1_000_000_000 <= a <= 1_000_000_000 && -8_000_000_000_000_000 <= b
                    <= 8_000_000_000_000_000 ==> -8_000_000_000_000_000_000_000_000 <= #[trigger] (
                a * b) <= 8_000_000_000_000_000_000_000_000) by (nonlinear_arith);
        }
        let p3 = mul_wide(self.rot.p, other.rot.p) - mul_wide(self.rot.q, other.rot.q);
        let q3 = mul_wide(self.rot.p, other.rot.q) + mul_wide(self.rot.q, other.rot.p);
        proof {
            lemma_rot_norm(
                self.rot.p as int,
                self.rot.q as int,
                other.rot.p as int,
                other.rot.q as int,
            );
            lemma_composed_rotation_bounds(self.rot, other.rot, p3 as int, q3 as int);
            crate::math::lemma_square_bound(p3 as int, 0x4000_0000_0000_0000);
            crate::math::lemma_square_bound(q3 as int, 0x4000_0000_0000_0000);
        }
        let nsq3: i128 = p3 * p3 + q3 * q3;
        let r3 = isqrt_u128(nsq3 as u128);
        let num_x = mul_wide(self.rot.p, other.x) - mul_wide(self.rot.q, other.y);
        let num_y = mul_wide(self.rot.p, other.y) + mul_wide(self.rot.q, other.x);
        let tx = div_round_i128(num_x, self.rot.r as i128);
        let ty = div_round_i128(num_y, self.rot.r as i128);
        Transform {
            rot: Rotation { p: p3 as i64, q: q3 as i64, r: r3 as i64 },
            x: self.x + (tx as i64),
            y: self.y + (ty as i64),
            src: PhantomData,
            dst: PhantomData,
        }
    }
}

/// Bound for applying a bounded rotation: since `|p|, |q| <= r`, each
/// rounded component is at most the sum of the input's component sizes.
proof fn lemma_rot_apply_bound(p: int, q: int, r: int, x: int, y: int)
    requires
        1 <= r <= ROT_LIMIT,
        abs_int(p) <= r,
        abs_int(q) <= r,
        abs_int(x) <= 8_000_000_000_000_000,
        abs_int(y) <= 8_000_000_000_000_000,
    ensures
        abs_int(rot_x(p, q, x, y)) <= r * (abs_int(x) + abs_int(y)),
        abs_int(rot_y(p, q, x, y)) <= r * (abs_int(x) + abs_int(y)),
        abs_int(rot_x(p, -q, x, y)) <= r * (abs_int(x) + abs_int(y)),
        abs_int(rot_y(p, -q, x, y)) <= r * (abs_int(x) + abs_int(y)),
        r * (abs_int(x) + abs_int(y)) <= 0x1000_0000_0000_0000_0000_0000_0000_0000,
        abs_int(div_round_spec(rot_x(p, q, x, y), r)) <= abs_int(x) + abs_int(y),
        abs_int(div_round_spec(rot_y(p, q, x, y), r)) <= abs_int(x) + abs_int(y),
        abs_int(div_round_spec(rot_x(p, -q, x, y), r)) <= abs_int(x) + abs_int(y),
        abs_int(div_round_spec(rot_y(p, -q, x, y), r)) <= abs_int(x) + abs_int(y),
{
    let ax = abs_int(x);
    let ay = abs_int(y);
    assert(-(r * (ax + ay)) <= p * x - q * y <= r * (ax + ay) && -(r * (ax + ay)) <= p * y + q * x
        <= r * (ax + ay) && -(r * (ax + ay)) <= p * x + q * y <= r * (ax + ay) && -(r * (ax + ay))
        <= p * y - q * x <= r * (ax + ay)) by (nonlinear_arith)
        requires
            -r <= p <= r,
            -r <= q <= r,
            -ax <= x <= ax,
            -ay <= y <= ay,
            0 <= ax,
            0 <= ay,
            r >= 1,
    ;
    assert(rot_x(p, q, x, y) == p * x - q * y);
    assert(rot_y(p, q, x, y) == p * y + q * x);
    assert(rot_x(p, -q, x, y) == p * x - (-q) * y);
    assert(rot_y(p, -q, x, y) == p * y + (-q) * x);
    assert(p * x - (-q) * y == p * x + q * y && p * y + (-q) * x == p * y - q * x)
        by (nonlinear_arith);
    assert(r * (ax + ay) <= 0x1000_0000_0000_0000_0000_0000_0000_0000) by (nonlinear_arith)
        requires
            1 <= r <= 1_000_000_000,
            0 <= ax <= 8_000_000_000_000_000,
            0 <= ay <= 8_000_000_000_000_000,
    ;
    lemma_div_round_mag(rot_x(p, q, x, y), r, ax + ay);
    lemma_div_round_mag(rot_y(p, q, x, y), r, ax + ay);
    lemma_div_round_mag(rot_x(p, -q, x, y), r, ax + ay);
    lemma_div_round_mag(rot_y(p, -q, x, y), r, ax + ay);
}

/// The composed rotation direction stays inside `i64` and its squared norm
/// is the product of the factors' squared norms, which also yields
/// wellformedness of the re-derived hypotenuse.
proof fn lemma_composed_rotation_bounds(a: Rotation, b: Rotation, p3: int, q3: int)
    requires
        a.bounded(),
        b.bounded(),
        p3 == rot_x(a.p as int, a.q as int, b.p as int, b.q as int),
        q3 == rot_y(a.p as int, a.q as int, b.p as int, b.q as int),
        p3 * p3 + q3 * q3 == (a.p * a.p + a.q * a.q) * (b.p * b.p + b.q * b.q),
    ensures
        abs_int(p3) <= 0x4000_0000_0000_0000,
        abs_int(q3) <= 0x4000_0000_0000_0000,
        1 <= p3 * p3 + q3 * q3 <= 0x1000_0000_0000_0000_0000_0000_0000_0000,
        1 <= isqrt_spec(p3 * p3 + q3 * q3) <= 0x4000_0000_0000_0000,
        isqrt_spec(p3 * p3 + q3 * q3) * isqrt_spec(p3 * p3 + q3 * q3) <= p3 * p3 + q3 * q3,
        p3 * p3 + q3 * q3 <= isqrt_spec(p3 * p3 + q3 * q3) * isqrt_spec(p3 * p3 + q3 * q3) + 2
            * isqrt_spec(p3 * p3 + q3 * q3),
{
    a.lemma_components_bounded();
    b.lemma_components_bounded();
    assert(-0x4000_0000_0000_0000 <= a.p * b.p - a.q * b.q <= 0x4000_0000_0000_0000
        && -0x4000_0000_0000_0000 <= a.p * b.q + a.q * b.p <= 0x4000_0000_0000_0000)
        by (nonlinear_arith)
        requires
            -1_000_000_000 <= a.p <= 1_000_000_000,
            -1_000_000_000 <= a.q <= 1_000_000_000,
            -1_000_000_000 <= b.p <= 1_000_000_000,
            -1_000_000_000 <= b.q <= 1_000_000_000,
    ;
    assert(p3 == a.p * b.p - a.q * b.q && q3 == a.p * b.q + a.q * b.p);
    let na = a.p * a.p + a.q * a.q;
    let nb = b.p * b.p + b.q * b.q;
    assert(na >= 1 && nb >= 1) by (nonlinear_arith)
        requires
            na >= a.r * a.r,
            nb >= b.r * b.r,
            a.r >= 1,
            b.r >= 1,
    ;
    assert(na <= 1_000_000_002_000_000_000 && nb <= 1_000_000_002_000_000_000)
        by (nonlinear_arith)
        requires
            na <= a.r * a.r + 2 * a.r,
            nb <= b.r * b.r + 2 * b.r,
            1 <= a.r <= 1_000_000_000,
            1 <= b.r <= 1_000_000_000,
    ;
    assert(1 <= na * nb <= 0x1000_0000_0000_0000_0000_0000_0000_0000) by (nonlinear_arith)
        requires
            1 <= na <= 1_000_000_002_000_000_000,
            1 <= nb <= 1_000_000_002_000_000_000,
    ;
    let n3 = p3 * p3 + q3 * q3;
    lemma_isqrt_spec_bounds(n3);
    let s = isqrt_spec(n3);
    assert(1 <= s && s <= 0x4000_0000_0000_0000 && n3 <= s * s + 2 * s) by (nonlinear_arith)
        requires
            s >= 0,
            s * s <= n3,
            n3 < (s + 1) * (s + 1),
            1 <= n3 <= 0x1000_0000_0000_0000_0000_0000_0000_0000,
    ;
}

/// A transform composed with its own inverse is the exact identity: the
/// rotation direction collapses to the positive x axis with scale exactly
/// one, and the rounded translations cancel term for term. The inverse thus
/// undoes the transform with no error at all on the tick grid.
pub proof fn lemma_inverse_composes_to_identity<Src, Dst>(t: Transform<Src, Dst>)
    requires
        t.bounded(),
    ensures
        spec_compose(spec_inverse(t), t).is_identity(),
{
    let p = t.rot.p as int;
    let q = t.rot.q as int;
    let r = t.rot.r as int;
    t.rot.lemma_components_bounded();
    lemma_rot_apply_bound(p, q, r, t.x as int, t.y as int);
    let inv = spec_inverse(t);
    assert(inv.rot.p == p && inv.rot.q == -q && inv.rot.r == r);
    assert(inv.x == -div_round_spec(rot_x(p, -q, t.x as int, t.y as int), r));
    assert(inv.y == -div_round_spec(rot_y(p, -q, t.x as int, t.y as int), r));
    let p3 = rot_x(p, -q, p, q);
    let q3 = rot_y(p, -q, p, q);
    assert(p3 == p * p - (-q) * q && q3 == p * q + (-q) * p);
    assert(p * p - (-q) * q == p * p + q * q && p * q + (-q) * p == 0) by (nonlinear_arith);
    assert(1 <= p3 <= 0x2000_0000_0000_0000) by (nonlinear_arith)
        requires
            p3 == p * p + q * q,
            r * r <= p * p + q * q <= r * r + 2 * r,
            1 <= r <= 1_000_000_000,
    ;
    assert(p3 * p3 + q3 * q3 == p3 * p3);
    assert(p3 * p3 >= 0 && p3 * p3 < (p3 + 1) * (p3 + 1)) by (nonlinear_arith)
        requires
            p3 >= 1,
    ;
    lemma_isqrt_unique(p3 * p3, p3);
    let comp = spec_compose(inv, t);
    assert(comp.rot.q == 0 && comp.rot.p == comp.rot.r && comp.rot.r >= 1);
    assert(comp.x == (inv.x + div_round_spec(rot_x(p, (-q as i64) as int, t.x as int, t.y as int), r)) as i64);
    assert((-q as i64) as int == -q);
    assert(comp.x == 0 && comp.y == 0);
}

} // verus!
