//! Circles: containment, bounding box, segment intersection, and tangent
//! construction against a point or another circle.
//!
//! Tangent endpoints are rounded once to the tick grid; every contract pins
//! the rounded coordinates down by an exact integer formula. Geometric
//! non-existence (no tangents) is an ordinary `None`, never an error.

use vstd::prelude::*;

use crate::frames::{spec_dist_squared, Point, Vector};
use crate::line_segment::LineSegment;
use crate::math::{
    abs_int, div_round_i128, div_round_spec, isqrt_spec, isqrt_u128, lemma_div_round_mag,
    lemma_rot_norm, mul_i128, mul_wide, rot_x, rot_y,
};
use crate::orientation::{ccw_angle_lt, Orientation};
use crate::rectangle::Rectangle;

verus! {

/// A circle: center plus nonnegative radius, degenerate when the radius is
/// zero.
#[derive(Debug, PartialEq, Eq)]
#[verifier::reject_recursive_types(F)]
pub struct Circle<F> {
    pub center: Point<F>,
    pub radius: i64,
}

impl<F> Copy for Circle<F> {}

impl<F> Clone for Circle<F> {
    fn clone(&self) -> (r: Self)
        ensures
            r == *self,
    {
        Circle { center: self.center.clone(), radius: self.radius }
    }
}

/// The two tangent segments produced by one tangent family.
#[derive(Debug, PartialEq, Eq)]
#[verifier::reject_recursive_types(F)]
pub struct TwoLineSegments<F>(pub LineSegment<F>, pub LineSegment<F>);

impl<F> Copy for TwoLineSegments<F> {}

impl<F> Clone for TwoLineSegments<F> {
    fn clone(&self) -> (r: Self)
        ensures
            r == *self,
    {
        TwoLineSegments(self.0.clone(), self.1.clone())
    }
}

/// Both tangent families between two circles; the interior family exists
/// only when the circles are disconnected.
#[derive(Debug, PartialEq, Eq)]
#[verifier::reject_recursive_types(F)]
pub struct CircleTangents<F> {
    pub inner: Option<TwoLineSegments<F>>,
    pub outer: TwoLineSegments<F>,
}

impl<F> Copy for CircleTangents<F> {}

impl<F> Clone for CircleTangents<F> {
    fn clone(&self) -> (r: Self)
        ensures
            r == *self,
    {
        CircleTangents { inner: self.inner, outer: self.outer }
    }
}

/// Containment is boundary-inclusive: a point at distance exactly `radius`
/// is inside.
pub open spec fn spec_contains<F>(c: Circle<F>, p: Point<F>) -> bool {
    spec_dist_squared(c.center, p) <= c.radius * c.radius
}

/// Exact comparison of the squared distance from `p` to the segment with
/// `rhs`: true when `dist(p, seg)^2 <= rhs`, decided without rounding.
pub open spec fn spec_dist_to_segment_sq_le<F>(s: LineSegment<F>, p: Point<F>, rhs: int) -> bool {
    let dot = s.spec_projection_dot(p);
    let nsq = s.spec_norm_squared();
    let papa = spec_dist_squared(s.0, p);
    let pbpb = spec_dist_squared(s.1, p);
    if nsq == 0 || dot <= 0 {
        papa <= rhs
    } else if dot >= nsq {
        pbpb <= rhs
    } else {
        papa * nsq - dot * dot <= rhs * nsq
    }
}

/// The larger circle of the pair; ties keep the first.
pub open spec fn spec_large<F>(a: Circle<F>, b: Circle<F>) -> Circle<F> {
    if b.radius > a.radius {
        b
    } else {
        a
    }
}

/// The smaller circle of the pair.
pub open spec fn spec_small<F>(a: Circle<F>, b: Circle<F>) -> Circle<F> {
    if b.radius > a.radius {
        a
    } else {
        b
    }
}

/// Whether the tangent construction swapped the two circles.
pub open spec fn spec_swapped<F>(a: Circle<F>, b: Circle<F>) -> bool {
    b.radius > a.radius
}

/// The rounded x-shift of a tangent endpoint: the reduced-radius circle
/// trick shrinks the pair to radius `red`, then scales the tangent direction
/// by `scale / dsq`. `sign` selects the tangent family member.
pub open spec fn tangent_shift_x<F>(l: Circle<F>, sm: Circle<F>, red: int, scale: int, sign: int) -> int {
    let dx = sm.center.x - l.center.x;
    let dy = sm.center.y - l.center.y;
    let dsq = dx * dx + dy * dy;
    div_round_spec(scale * rot_x(red, sign * isqrt_spec(dsq - red * red), dx, dy), dsq)
}

/// The rounded y-shift of a tangent endpoint.
pub open spec fn tangent_shift_y<F>(l: Circle<F>, sm: Circle<F>, red: int, scale: int, sign: int) -> int {
    let dx = sm.center.x - l.center.x;
    let dy = sm.center.y - l.center.y;
    let dsq = dx * dx + dy * dy;
    div_round_spec(scale * rot_y(red, sign * isqrt_spec(dsq - red * red), dx, dy), dsq)
}

/// X coordinate of the tangent touch point on a circle seen from an outside
/// point, for `sign` `1` or `-1`.
pub open spec fn tangent_point_x<F>(c: Circle<F>, other: Point<F>, sign: int) -> int {
    let ex = other.x - c.center.x;
    let ey = other.y - c.center.y;
    let dsq = ex * ex + ey * ey;
    let h = isqrt_spec(dsq - c.radius * c.radius);
    c.center.x + div_round_spec(c.radius * rot_x(c.radius as int, sign * h, ex, ey), dsq)
}

/// Y coordinate of the tangent touch point on a circle seen from an outside
/// point.
pub open spec fn tangent_point_y<F>(c: Circle<F>, other: Point<F>, sign: int) -> int {
    let ex = other.x - c.center.x;
    let ey = other.y - c.center.y;
    let dsq = ex * ex + ey * ey;
    let h = isqrt_spec(dsq - c.radius * c.radius);
    c.center.y + div_round_spec(c.radius * rot_y(c.radius as int, sign * h, ex, ey), dsq)
}

impl<F> Circle<F> {
    pub open spec fn wf(self) -> bool {
        self.center.wf() && 0 <= self.radius <= crate::math::COORD_LIMIT
    }

    pub fn new(center: Point<F>, radius: i64) -> (r: Self)
        ensures
            r.center == center,
            r.radius == radius,
    {
        Circle { center, radius }
    }

    /// Boundary-inclusive containment, decided exactly on squared values.
    pub fn contains(&self, point: Point<F>) -> (r: bool)
        requires
            self.wf(),
            point.wf(),
        ensures
            r == spec_contains(*self, point),
    {
        let dsq = crate::frames::dist_squared(self.center, point);
        proof {
            assert(0 <= self.radius * self.radius <= 0x2386_f26f_c10000_i64) by (nonlinear_arith)
                requires
                    0 <= self.radius <= 100_000_000,
            ;
        }
        dsq <= self.radius * self.radius
    }

    /// The axis-aligned box `center +- (radius, radius)`.
    pub fn bounding_box(&self) -> (r: Rectangle<F>)
        requires
            self.wf(),
        ensures
            r.min.x == self.center.x - self.radius,
            r.min.y == self.center.y - self.radius,
            r.max.x == self.center.x + self.radius,
            r.max.y == self.center.y + self.radius,
    {
        Rectangle {
            min: Point::new(self.center.x - self.radius, self.center.y - self.radius),
            max: Point::new(self.center.x + self.radius, self.center.y + self.radius),
        }
    }

    /// Whether the segment comes strictly within `radius` of the center: a
    /// segment whose shortest distance to the center is exactly the radius
    /// does not intersect, unlike boundary-inclusive point containment.
    /// Decided exactly on squared values, where strictness is `<= rsq - 1`.
    pub fn intersects_line_segment(&self, line_segment: &LineSegment<F>) -> (r: bool)
        requires
            self.wf(),
            line_segment.wf(),
        ensures
            r == spec_dist_to_segment_sq_le(
                *line_segment,
                self.center,
                self.radius * self.radius - 1,
            ),
    {
        proof {
            assert(0 <= self.radius * self.radius <= 0x2386_f26f_c10000_i64) by (nonlinear_arith)
                requires
                    0 <= self.radius <= 100_000_000,
            ;
        }
        let rsq: i64 = self.radius * self.radius;
        dist_to_segment_sq_le(line_segment, self.center, rsq - 1)
    }

    /// The two tangents from an outside point, each running from its touch
    /// point on the circle to `other`; `None` exactly when `other` lies in
    /// or on the circle, where tangents are undefined.
    pub fn tangents_with_point(&self, other: Point<F>) -> (r: Option<TwoLineSegments<F>>)
        requires
            self.wf(),
            other.wf(),
        ensures
            (r is Some) <==> spec_dist_squared(self.center, other) > self.radius * self.radius,
            r matches Some(t) ==> {
                &&& t.0.1 == other
                &&& t.1.1 == other
                &&& t.0.0.x == tangent_point_x(*self, other, 1)
                &&& t.0.0.y == tangent_point_y(*self, other, 1)
                &&& t.1.0.x == tangent_point_x(*self, other, -1)
                &&& t.1.0.y == tangent_point_y(*self, other, -1)
            },
    {
        proof {
            assert(0 <= self.radius * self.radius <= 0x2386_f26f_c10000_i64) by (nonlinear_arith)
                requires
                    0 <= self.radius <= 100_000_000,
            ;
        }
        let rsq: i64 = self.radius * self.radius;
        let e = other.minus(self.center);
        let dsq = e.norm_squared();
        if dsq <= rsq {
            return None;
        }
        proof {
            crate::frames::lemma_norm_squared_bound(e);
        }
        let h = isqrt_to_i64(dsq - rsq, dsq);
        proof {
            assert((-h) * (-h) == h * h && h * h == (h as int) * (h as int)) by (nonlinear_arith);
            crate::math::lemma_rot_swap(self.radius as int, h as int, e.x as int, e.y as int);
            crate::math::lemma_rot_swap(self.radius as int, -h as int, e.x as int, e.y as int);
        }
        let sx_pos = tangent_shift(self.radius, self.radius, h, e.x, e.y, dsq);
        let sy_pos = tangent_shift(self.radius, self.radius, -h, e.y, e.x, dsq);
        let sx_neg = tangent_shift(self.radius, self.radius, -h, e.x, e.y, dsq);
        let sy_neg = tangent_shift(self.radius, self.radius, h, e.y, e.x, dsq);
        Some(
            TwoLineSegments(
                LineSegment(
                    Point::new(self.center.x + sx_pos, self.center.y + sy_pos),
                    other,
                ),
                LineSegment(
                    Point::new(self.center.x + sx_neg, self.center.y + sy_neg),
                    other,
                ),
            ),
        )
    }
}

/// Exact comparison of the squared point-to-segment distance with `rhs`,
/// decided on integers without any rounding.
pub fn dist_to_segment_sq_le<F>(line_segment: &LineSegment<F>, p: Point<F>, rhs: i64) -> (r: bool)
    requires
        line_segment.wf(),
        p.wf(),
        -0x2386_f26f_c10000_i64 <= rhs <= 0x2386_f26f_c10000_i64,
    ensures
        r == spec_dist_to_segment_sq_le(*line_segment, p, rhs as int),
{
    let dir = line_segment.1.minus(line_segment.0);
    let nsq = dir.norm_squared();
    let papa = crate::frames::dist_squared(line_segment.0, p);
    if nsq == 0 {
        return papa <= rhs;
    }
    let dot = p.minus(line_segment.0).dot(dir);
    if dot <= 0 {
        return papa <= rhs;
    }
    if dot >= nsq {
        let pbpb = crate::frames::dist_squared(line_segment.1, p);
        return pbpb <= rhs;
    }
    proof {
        crate::frames::lemma_norm_squared_bound(dir);
        assert(papa <= 160_000_000_000_000_000) by (nonlinear_arith)
            requires
                papa == (p.x - line_segment.0.x) * (p.x - line_segment.0.x) + (p.y
                    - line_segment.0.y) * (p.y - line_segment.0.y),
                -100_000_000 <= p.x <= 100_000_000,
                -100_000_000 <= p.y <= 100_000_000,
                -100_000_000 <= line_segment.0.x <= 100_000_000,
                -100_000_000 <= line_segment.0.y <= 100_000_000,
        ;
    }
    let lhs = mul_i128(papa as i128, nsq as i128) - mul_i128(dot as i128, dot as i128);
    let rhs_wide = mul_i128(rhs as i128, nsq as i128);
    lhs <= rhs_wide
}

/// Integer square root of `n`, which the callers bound by `dsq`.
fn isqrt_to_i64(n: i64, dsq: i64) -> (r: i64)
    requires
        0 <= n <= dsq <= 80_000_000_000_000_000,
    ensures
        r == isqrt_spec(n as int),
        0 <= r <= 300_000_000,
        r * r <= n,
{
    let h = isqrt_u128(n as u128);
    proof {
        assert(h as int <= 300_000_000) by (nonlinear_arith)
            requires
                h >= 0,
                (h as int) * (h as int) <= n as int,
                n <= 80_000_000_000_000_000,
        ;
    }
    h as i64
}

/// The rounded shift `round(scale * rot_x(c, s, x, y) / dsq)` of one tangent
/// coordinate; `rot_y` is reached by swapping `x` with `y` and negating `s`.
fn tangent_shift(scale: i64, c: i64, s: i64, x: i64, y: i64, dsq: i64) -> (r: i64)
    requires
        0 <= scale <= 200_000_000,
        -400_000_000 <= c <= 400_000_000,
        -400_000_000 <= s <= 400_000_000,
        -200_000_000 <= x <= 200_000_000,
        -200_000_000 <= y <= 200_000_000,
        c * c + s * s <= dsq,
        x * x + y * y == dsq,
        1 <= dsq <= 80_000_000_000_000_000,
    ensures
        r == div_round_spec(scale * rot_x(c as int, s as int, x as int, y as int), dsq as int),
        -scale <= r <= scale,
{
    let cx = mul_wide(c, x);
    let sy = mul_wide(s, y);
    proof {
        assert(abs_int(cx as int) <= 80_000_000_000_000_000 && abs_int(sy as int)
            <= 80_000_000_000_000_000) by (nonlinear_arith)
            requires
                cx == c * x,
                sy == s * y,
                -400_000_000 <= c <= 400_000_000,
                -400_000_000 <= s <= 400_000_000,
                -200_000_000 <= x <= 200_000_000,
                -200_000_000 <= y <= 200_000_000,
        ;
    }
    let rx = cx - sy;
    proof {
        lemma_rot_norm(c as int, s as int, x as int, y as int);
        let rxi = rot_x(c as int, s as int, x as int, y as int);
        let ryi = rot_y(c as int, s as int, x as int, y as int);
        assert((c * c + s * s) * (x * x + y * y) <= dsq * dsq && ryi * ryi >= 0)
            by (nonlinear_arith)
            requires
                c * c + s * s <= dsq,
                x * x + y * y == dsq,
                dsq >= 1,
        ;
        assert(rxi * rxi <= dsq * dsq);
        assert(abs_int(rx as int) <= dsq) by (nonlinear_arith)
            requires
                rx == rxi,
                rxi * rxi <= dsq * dsq,
                dsq >= 1,
        ;
        assert(abs_int((scale as int) * (rx as int)) <= scale * dsq && scale * dsq
            <= 0x1000_0000_0000_0000_0000_0000_0000_0000) by (nonlinear_arith)
            requires
                0 <= scale <= 200_000_000,
                abs_int(rx as int) <= dsq,
                1 <= dsq <= 80_000_000_000_000_000,
        ;
        lemma_div_round_mag((scale as int) * (rx as int), dsq as int, scale as int);
    }
    let num = mul_i128(scale as i128, rx);
    let q = div_round_i128(num, dsq as i128);
    q as i64
}

/// A point at distance exactly `radius` from the center is contained:
/// containment is boundary-inclusive.
pub proof fn lemma_contains_boundary<F>(c: Circle<F>, p: Point<F>)
    requires
        spec_dist_squared(c.center, p) == c.radius * c.radius,
    ensures
        spec_contains(c, p),
{
}


impl<F> Circle<F> {
    /// Interior tangents, which cross between the circles: the pair is
    /// reduced to a point against a circle grown to the radius sum, and the
    /// touch points are scaled back onto both circles. `None` exactly when
    /// the circles touch or overlap.
    fn interior_tangents_with_circle(&self, other: Circle<F>) -> (r: Option<TwoLineSegments<F>>)
        requires
            self.wf(),
            other.wf(),
        ensures
            (r is Some) <==> spec_dist_squared(self.center, other.center) > (self.radius
                + other.radius) * (self.radius + other.radius),
            r matches Some(t) ==> ({
                let l = spec_large(*self, other);
                let sm = spec_small(*self, other);
                let red = self.radius + other.radius;
                let first = if spec_swapped(*self, other) {
                    t.0.spec_flip()
                } else {
                    t.0
                };
                let second = if spec_swapped(*self, other) {
                    t.1.spec_flip()
                } else {
                    t.1
                };
                &&& first.0.x == l.center.x + tangent_shift_x(l, sm, red, l.radius as int, 1)
                &&& first.0.y == l.center.y + tangent_shift_y(l, sm, red, l.radius as int, 1)
                &&& first.1.x == sm.center.x - tangent_shift_x(l, sm, red, sm.radius as int, 1)
                &&& first.1.y == sm.center.y - tangent_shift_y(l, sm, red, sm.radius as int, 1)
                &&& second.0.x == l.center.x + tangent_shift_x(l, sm, red, l.radius as int, -1)
                &&& second.0.y == l.center.y + tangent_shift_y(l, sm, red, l.radius as int, -1)
                &&& second.1.x == sm.center.x - tangent_shift_x(l, sm, red, sm.radius as int, -1)
                &&& second.1.y == sm.center.y - tangent_shift_y(l, sm, red, sm.radius as int, -1)
            }),
    {
        let swapped = other.radius > self.radius;
        let l = if swapped {
            other
        } else {
            *self
        };
        let sm = if swapped {
            *self
        } else {
            other
        };
        let d = sm.center.minus(l.center);
        let dsq = d.norm_squared();
        proof {
            crate::frames::lemma_dist_squared_symmetric(self.center, other.center);
        }
        let red = l.radius + sm.radius;
        proof {
            assert(0 <= red * red <= 0x8e1b_c9bf_040000_i64) by (nonlinear_arith)
                requires
                    0 <= red <= 200_000_000,
            ;
        }
        let redsq: i64 = red * red;
        if dsq <= redsq {
            return None;
        }
        proof {
            crate::frames::lemma_norm_squared_bound(d);
        }
        let h = isqrt_to_i64(dsq - redsq, dsq);
        proof {
            assert((-h) * (-h) == h * h && h * h == (h as int) * (h as int)) by (nonlinear_arith);
            crate::math::lemma_rot_swap(red as int, h as int, d.x as int, d.y as int);
            crate::math::lemma_rot_swap(red as int, -h as int, d.x as int, d.y as int);
        }
        let lp0 = Point::new(
            l.center.x + tangent_shift(l.radius, red, h, d.x, d.y, dsq),
            l.center.y + tangent_shift(l.radius, red, -h, d.y, d.x, dsq),
        );
        let sp0 = Point::new(
            sm.center.x - tangent_shift(sm.radius, red, h, d.x, d.y, dsq),
            sm.center.y - tangent_shift(sm.radius, red, -h, d.y, d.x, dsq),
        );
        let lp1 = Point::new(
            l.center.x + tangent_shift(l.radius, red, -h, d.x, d.y, dsq),
            l.center.y + tangent_shift(l.radius, red, h, d.y, d.x, dsq),
        );
        let sp1 = Point::new(
            sm.center.x - tangent_shift(sm.radius, red, -h, d.x, d.y, dsq),
            sm.center.y - tangent_shift(sm.radius, red, h, d.y, d.x, dsq),
        );
        if swapped {
            Some(TwoLineSegments(LineSegment(sp0, lp0), LineSegment(sp1, lp1)))
        } else {
            Some(TwoLineSegments(LineSegment(lp0, sp0), LineSegment(lp1, sp1)))
        }
    }

    /// Exterior tangents, which stay outside both circles: the pair is
    /// reduced to a point against a circle shrunk to the radius difference.
    /// `None` exactly when one circle encloses the other.
    fn exterior_tangents_with_circle(&self, other: Circle<F>) -> (r: Option<TwoLineSegments<F>>)
        requires
            self.wf(),
            other.wf(),
        ensures
            (r is Some) <==> spec_dist_squared(self.center, other.center) > (spec_large(
                *self,
                other,
            ).radius - spec_small(*self, other).radius) * (spec_large(*self, other).radius
                - spec_small(*self, other).radius),
            r matches Some(t) ==> ({
                let l = spec_large(*self, other);
                let sm = spec_small(*self, other);
                let red = l.radius - sm.radius;
                let first = if spec_swapped(*self, other) {
                    t.0.spec_flip()
                } else {
                    t.0
                };
                let second = if spec_swapped(*self, other) {
                    t.1.spec_flip()
                } else {
                    t.1
                };
                &&& first.0.x == l.center.x + tangent_shift_x(l, sm, red, l.radius as int, 1)
                &&& first.0.y == l.center.y + tangent_shift_y(l, sm, red, l.radius as int, 1)
                &&& first.1.x == sm.center.x + tangent_shift_x(l, sm, red, sm.radius as int, 1)
                &&& first.1.y == sm.center.y + tangent_shift_y(l, sm, red, sm.radius as int, 1)
                &&& second.0.x == l.center.x + tangent_shift_x(l, sm, red, l.radius as int, -1)
                &&& second.0.y == l.center.y + tangent_shift_y(l, sm, red, l.radius as int, -1)
                &&& second.1.x == sm.center.x + tangent_shift_x(l, sm, red, sm.radius as int, -1)
                &&& second.1.y == sm.center.y + tangent_shift_y(l, sm, red, sm.radius as int, -1)
            }),
    {
        let swapped = other.radius > self.radius;
        let l = if swapped {
            other
        } else {
            *self
        };
        let sm = if swapped {
            *self
        } else {
            other
        };
        let d = sm.center.minus(l.center);
        let dsq = d.norm_squared();
        proof {
            crate::frames::lemma_dist_squared_symmetric(self.center, other.center);
        }
        let red = l.radius - sm.radius;
        proof {
            assert(0 <= red * red <= 0x2386_f26f_c10000_i64) by (nonlinear_arith)
                requires
                    0 <= red <= 100_000_000,
            ;
        }
        let redsq: i64 = red * red;
        if dsq <= redsq {
            return None;
        }
        proof {
            crate::frames::lemma_norm_squared_bound(d);
        }
        let h = isqrt_to_i64(dsq - redsq, dsq);
        proof {
            assert((-h) * (-h) == h * h && h * h == (h as int) * (h as int)) by (nonlinear_arith);
            crate::math::lemma_rot_swap(red as int, h as int, d.x as int, d.y as int);
            crate::math::lemma_rot_swap(red as int, -h as int, d.x as int, d.y as int);
        }
        let lp0 = Point::new(
            l.center.x + tangent_shift(l.radius, red, h, d.x, d.y, dsq),
            l.center.y + tangent_shift(l.radius, red, -h, d.y, d.x, dsq),
        );
        let sp0 = Point::new(
            sm.center.x + tangent_shift(sm.radius, red, h, d.x, d.y, dsq),
            sm.center.y + tangent_shift(sm.radius, red, -h, d.y, d.x, dsq),
        );
        let lp1 = Point::new(
            l.center.x + tangent_shift(l.radius, red, -h, d.x, d.y, dsq),
            l.center.y + tangent_shift(l.radius, red, h, d.y, d.x, dsq),
        );
        let sp1 = Point::new(
            sm.center.x + tangent_shift(sm.radius, red, -h, d.x, d.y, dsq),
            sm.center.y + tangent_shift(sm.radius, red, h, d.y, d.x, dsq),
        );
        if swapped {
            Some(TwoLineSegments(LineSegment(sp0, lp0), LineSegment(sp1, lp1)))
        } else {
            Some(TwoLineSegments(LineSegment(lp0, sp0), LineSegment(lp1, sp1)))
        }
    }

    /// Both tangent families between two circles. `None` exactly when one
    /// circle encloses the other, where no tangent exists at all; the
    /// interior family is present exactly when the circles are disconnected.
    pub fn tangents_with_circle(&self, other: Circle<F>) -> (r: Option<CircleTangents<F>>)
        requires
            self.wf(),
            other.wf(),
        ensures
            (r is Some) <==> spec_dist_squared(self.center, other.center) > (spec_large(
                *self,
                other,
            ).radius - spec_small(*self, other).radius) * (spec_large(*self, other).radius
                - spec_small(*self, other).radius),
            r matches Some(t) ==> ({
                let l = spec_large(*self, other);
                let sm = spec_small(*self, other);
                let red_in = self.radius + other.radius;
                let red_ex = l.radius - sm.radius;
                let outer_first = if spec_swapped(*self, other) {
                    t.outer.0.spec_flip()
                } else {
                    t.outer.0
                };
                let outer_second = if spec_swapped(*self, other) {
                    t.outer.1.spec_flip()
                } else {
                    t.outer.1
                };
                &&& ((t.inner is Some) <==> spec_dist_squared(self.center, other.center) > red_in
                    * red_in)
                &&& outer_first.0.x == l.center.x + tangent_shift_x(l, sm, red_ex, l.radius as int, 1)
                &&& outer_first.0.y == l.center.y + tangent_shift_y(l, sm, red_ex, l.radius as int, 1)
                &&& outer_first.1.x == sm.center.x + tangent_shift_x(l, sm, red_ex, sm.radius as int, 1)
                &&& outer_first.1.y == sm.center.y + tangent_shift_y(l, sm, red_ex, sm.radius as int, 1)
                &&& outer_second.0.x == l.center.x + tangent_shift_x(l, sm, red_ex, l.radius as int, -1)
                &&& outer_second.0.y == l.center.y + tangent_shift_y(l, sm, red_ex, l.radius as int, -1)
                &&& outer_second.1.x == sm.center.x + tangent_shift_x(l, sm, red_ex, sm.radius as int, -1)
                &&& outer_second.1.y == sm.center.y + tangent_shift_y(l, sm, red_ex, sm.radius as int, -1)
            }),
            (match r {
                Some(t) => match t.inner {
                    Some(ti) => {
                        let l = spec_large(*self, other);
                        let sm = spec_small(*self, other);
                        let red_in = self.radius + other.radius;
                        let inner_first = if spec_swapped(*self, other) {
                            ti.0.spec_flip()
                        } else {
                            ti.0
                        };
                        let inner_second = if spec_swapped(*self, other) {
                            ti.1.spec_flip()
                        } else {
                            ti.1
                        };
                        inner_first.0.x == l.center.x + tangent_shift_x(l, sm, red_in, l.radius as int, 1)
                            && inner_first.0.y == l.center.y + tangent_shift_y(l, sm, red_in, l.radius as int, 1)
                            && inner_first.1.x == sm.center.x - tangent_shift_x(l, sm, red_in, sm.radius as int, 1)
                            && inner_first.1.y == sm.center.y - tangent_shift_y(l, sm, red_in, sm.radius as int, 1)
                            && inner_second.0.x == l.center.x + tangent_shift_x(l, sm, red_in, l.radius as int, -1)
                            && inner_second.0.y == l.center.y + tangent_shift_y(l, sm, red_in, l.radius as int, -1)
                            && inner_second.1.x == sm.center.x - tangent_shift_x(l, sm, red_in, sm.radius as int, -1)
                            && inner_second.1.y == sm.center.y - tangent_shift_y(l, sm, red_in, sm.radius as int, -1)
                    },
                    None => true,
                },
                None => true,
            }),
    {
        let d = other.center.minus(self.center);
        let squared_distance = d.norm_squared();
        let enclosure_radius = if self.radius >= other.radius {
            self.radius - other.radius
        } else {
            other.radius - self.radius
        };
        proof {
            assert(0 <= enclosure_radius * enclosure_radius <= 0x2386_f26f_c10000_i64)
                by (nonlinear_arith)
                requires
                    0 <= enclosure_radius <= 100_000_000,
            ;
            crate::frames::lemma_dist_squared_symmetric(self.center, other.center);
        }
        if squared_distance <= enclosure_radius * enclosure_radius {
            return None;
        }
        let touch_radius = self.radius + other.radius;
        proof {
            assert(0 <= touch_radius * touch_radius <= 0x8e1b_c9bf_040000_i64) by (nonlinear_arith)
                requires
                    0 <= touch_radius <= 200_000_000,
            ;
        }
        let inner = if squared_distance > touch_radius * touch_radius {
            self.interior_tangents_with_circle(other)
        } else {
            None
        };
        let outer = match self.exterior_tangents_with_circle(other) {
            Some(outer) => outer,
            None => {
                proof {
                    assert(false);
                }
                vstd::pervasive::unreached::<TwoLineSegments<F>>()
            },
        };
        Some(CircleTangents { inner, outer })
    }
}

/// Between two degenerate (radius-zero) circles every tangent-endpoint
/// shift vanishes, so by `tangents_with_circle`'s contract each returned
/// segment, interior and exterior alike, runs directly from one center to
/// the other.
pub proof fn lemma_degenerate_circle_tangents<F>(a: Circle<F>, b: Circle<F>, sign: int)
    requires
        a.wf(),
        b.wf(),
        a.radius == 0,
        b.radius == 0,
        a.center.x != b.center.x || a.center.y != b.center.y,
    ensures
        tangent_shift_x(spec_large(a, b), spec_small(a, b), 0, 0, sign) == 0,
        tangent_shift_y(spec_large(a, b), spec_small(a, b), 0, 0, sign) == 0,
{
    let l = spec_large(a, b);
    let sm = spec_small(a, b);
    let dx = sm.center.x - l.center.x;
    let dy = sm.center.y - l.center.y;
    let dsq = dx * dx + dy * dy;
    assert(dx * dx + dy * dy >= 1) by (nonlinear_arith)
        requires
            dx != 0 || dy != 0,
    ;
    assert(0 * rot_x(0, sign * isqrt_spec(dsq - 0 * 0), dx, dy) == 0) by (nonlinear_arith);
    assert(0 * rot_y(0, sign * isqrt_spec(dsq - 0 * 0), dx, dy) == 0) by (nonlinear_arith);
    assert(div_round_spec(0, dsq) == 0) by {
        vstd::arithmetic::div_mod::lemma_basic_div(dsq / 2, dsq);
    };
}


/// Whether a circle overlaps an arc swept in the given direction: the
/// circle must come within the radius sum of the arc's circle, and the
/// sweep angle from the arc's start to the circle's center must fall before
/// the angle to the arc's end, with the comparison mirrored for clockwise
/// sweeps. A circle centered exactly on the arc's center (or an arc
/// endpoint equal to the center) yields a zero offset vector, which has no
/// angular position; [`ccw_angle_lt`] gives it sweep angle zero, treating
/// it as aligned with the arc's start.
pub open spec fn spec_circle_overlaps_arc<F>(
    c: Circle<F>,
    arc: crate::arc::Arc<F>,
    orientation: Orientation,
) -> bool {
    let dist_sq = spec_dist_squared(c.center, arc.circle.center);
    if dist_sq > (c.radius + arc.circle.radius) * (c.radius + arc.circle.radius) {
        false
    } else {
        let vs = Vector::<F> {
            x: (arc.start.x - arc.circle.center.x) as i64,
            y: (arc.start.y - arc.circle.center.y) as i64,
            frame: core::marker::PhantomData,
        };
        let vo = Vector::<F> {
            x: (c.center.x - arc.circle.center.x) as i64,
            y: (c.center.y - arc.circle.center.y) as i64,
            frame: core::marker::PhantomData,
        };
        let ve = Vector::<F> {
            x: (arc.end.x - arc.circle.center.x) as i64,
            y: (arc.end.y - arc.circle.center.y) as i64,
            frame: core::marker::PhantomData,
        };
        ccw_angle_lt(vs, vo, ve) != (orientation == Orientation::Clockwise)
    }
}

impl<F> Circle<F> {
    /// Executable form of [`spec_circle_overlaps_arc`].
    pub fn overlaps_arc(&self, arc: crate::arc::Arc<F>, orientation: Orientation) -> (r: bool)
        requires
            self.wf(),
            arc.wf(),
        ensures
            r == spec_circle_overlaps_arc(*self, arc, orientation),
    {
        proof {
            assert(0 <= (self.radius + arc.circle.radius) * (self.radius + arc.circle.radius)
                <= 0x8e1b_c9bf_040000_i64) by (nonlinear_arith)
                requires
                    0 <= self.radius + arc.circle.radius <= 200_000_000,
            ;
        }
        let dist_sq = crate::frames::dist_squared(arc.circle.center, self.center);
        proof {
            crate::frames::lemma_dist_squared_symmetric(self.center, arc.circle.center);
        }
        if dist_sq > (self.radius + arc.circle.radius) * (self.radius + arc.circle.radius) {
            return false;
        }
        let vector_start = arc.start.minus(arc.circle.center);
        let vector_obstacle = self.center.minus(arc.circle.center);
        let vector_end = arc.end.minus(arc.circle.center);
        let in_sweep = crate::orientation::ccw_angle_lt_exec(
            vector_start,
            vector_obstacle,
            vector_end,
        );
        in_sweep != matches!(orientation, Orientation::Clockwise)
    }
}

} // verus!
