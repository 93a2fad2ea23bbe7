//! Directed line segments: orientation tests, the segment-segment
//! intersection test and its invariance under argument order and endpoint
//! flips, projections and distances.

use vstd::prelude::*;

use crate::frames::{spec_dist_squared, Point, Vector};
use crate::math::{
    abs_int, div_round_i128, div_round_spec, isqrt_spec, isqrt_u128, lemma_div_round_mag, max_int,
    min_int, TICKS_PER_UNIT,
};
use crate::orientation::{orientation_of, Orientation};

verus! {

/// An ordered pair of endpoints. Orientation queries depend on the order;
/// the intersection test does not.
#[derive(Debug, PartialEq, Eq)]
#[verifier::reject_recursive_types(F)]
pub struct LineSegment<F>(pub Point<F>, pub Point<F>);

impl<F> Copy for LineSegment<F> {}

impl<F> Clone for LineSegment<F> {
    fn clone(&self) -> (r: Self)
        ensures
            r == *self,
    {
        LineSegment(self.0.clone(), self.1.clone())
    }
}

/// Twice the signed area of the triangle `(a, b, c)`: positive when `c`
/// lies counterclockwise of the directed line from `a` to `b`.
pub open spec fn orient_val<F>(a: Point<F>, b: Point<F>, c: Point<F>) -> int {
    (b.x - a.x) * (c.y - a.y) - (b.y - a.y) * (c.x - a.x)
}

/// Orientation of `c` against the directed line from `a` to `b`.
pub open spec fn orient<F>(a: Point<F>, b: Point<F>, c: Point<F>) -> Orientation {
    orientation_of(orient_val(a, b, c))
}

/// Strict interior of the axis-aligned bounding box of `a` and `b`;
/// a point exactly on the border does not count.
pub open spec fn bbox_strictly_contains<F>(a: Point<F>, b: Point<F>, p: Point<F>) -> bool {
    p.x > min_int(a.x as int, b.x as int) && p.x < max_int(a.x as int, b.x as int) && p.y < max_int(
        a.y as int,
        b.y as int,
    ) && p.y > min_int(a.y as int, b.y as int)
}

/// Overlap test for two collinear segments: some endpoint lies strictly
/// inside the other segment's bounding box. Endpoints that only touch at a
/// shared vertex deliberately do not count as overlapping.
pub open spec fn collinear_overlap<F>(s: LineSegment<F>, o: LineSegment<F>) -> bool {
    bbox_strictly_contains(s.0, s.1, o.0) || bbox_strictly_contains(s.0, s.1, o.1)
        || bbox_strictly_contains(o.0, o.1, s.0) || bbox_strictly_contains(o.0, o.1, s.1)
}

/// Both of the other segment's endpoints lie strictly on one side of this
/// segment's supporting line.
pub open spec fn strictly_same_side<F>(s: LineSegment<F>, o: LineSegment<F>) -> bool {
    (orient(s.0, s.1, o.0) == Orientation::Counterclockwise && orient(s.0, s.1, o.1)
        == Orientation::Counterclockwise) || (orient(s.0, s.1, o.0) == Orientation::Clockwise
        && orient(s.0, s.1, o.1) == Orientation::Clockwise)
}

/// The segment-segment intersection predicate: no segment may see both of
/// the other's endpoints strictly on one side; fully collinear pairs fall
/// back to the strict bounding-box overlap.
pub open spec fn seg_intersects<F>(s: LineSegment<F>, o: LineSegment<F>) -> bool {
    let o1 = orient(s.0, s.1, o.0);
    let o2 = orient(s.0, s.1, o.1);
    if strictly_same_side(s, o) {
        false
    } else if o1 == Orientation::Colinear && o2 == Orientation::Colinear {
        collinear_overlap(s, o)
    } else {
        let p1 = orient(o.0, o.1, s.0);
        let p2 = orient(o.0, o.1, s.1);
        p1 != p2 || p1 == Orientation::Colinear
    }
}

impl<F> LineSegment<F> {
    pub open spec fn wf(self) -> bool {
        self.0.wf() && self.1.wf()
    }

    /// The two endpoints are distinct.
    pub open spec fn nondegenerate(self) -> bool {
        self.0.x != self.1.x || self.0.y != self.1.y
    }

    pub open spec fn spec_flip(self) -> LineSegment<F> {
        LineSegment(self.1, self.0)
    }

    pub open spec fn spec_norm_squared(self) -> int {
        spec_dist_squared(self.0, self.1)
    }

    /// Dot product of `point - self.0` with `self.1 - self.0`; the sign and
    /// size against the squared length locate the projection of `point`.
    pub open spec fn spec_projection_dot(self, point: Point<F>) -> int {
        (point.x - self.0.x) * (self.1.x - self.0.x) + (point.y - self.0.y) * (self.1.y - self.0.y)
    }

    pub fn new(start: Point<F>, end: Point<F>) -> (r: Self)
        ensures
            r.0 == start,
            r.1 == end,
    {
        LineSegment(start, end)
    }

    pub fn flip(self) -> (r: Self)
        ensures
            r == self.spec_flip(),
    {
        LineSegment(self.1, self.0)
    }

    pub fn translate(&self, translation: Vector<F>) -> (r: Self)
        requires
            self.wf(),
            translation.wf(),
            abs_int(self.0.x + translation.x) <= crate::frames::VEC_LIMIT,
            abs_int(self.0.y + translation.y) <= crate::frames::VEC_LIMIT,
            abs_int(self.1.x + translation.x) <= crate::frames::VEC_LIMIT,
            abs_int(self.1.y + translation.y) <= crate::frames::VEC_LIMIT,
        ensures
            r.0.x == self.0.x + translation.x,
            r.0.y == self.0.y + translation.y,
            r.1.x == self.1.x + translation.x,
            r.1.y == self.1.y + translation.y,
    {
        LineSegment(self.0.plus(translation), self.1.plus(translation))
    }

    pub fn norm_squared(&self) -> (r: i64)
        requires
            self.wf(),
        ensures
            r == self.spec_norm_squared(),
            r >= 0,
    {
        self.1.minus(self.0).norm_squared()
    }

    /// Length in ticks, rounded down.
    pub fn norm(&self) -> (r: i64)
        requires
            self.wf(),
        ensures
            r == isqrt_spec(self.spec_norm_squared()),
            r * r <= self.spec_norm_squared() < (r + 1) * (r + 1),
            r >= 0,
    {
        self.1.minus(self.0).norm()
    }

    /// Where the projection of `point` falls along the segment, as a
    /// fixed-point fraction: `0` at the start, `TICKS_PER_UNIT` at the end.
    pub fn projection_factor(&self, point: Point<F>) -> (r: i64)
        requires
            self.wf(),
            point.wf(),
            self.nondegenerate(),
        ensures
            r == div_round_spec(
                self.spec_projection_dot(point) * TICKS_PER_UNIT,
                self.spec_norm_squared(),
            ),
    {
        let dir = self.1.minus(self.0);
        let pa = point.minus(self.0);
        let dot = pa.dot(dir);
        let nsq = dir.norm_squared();
        proof {
            lemma_nondegenerate_norm_pos(*self);
            crate::frames::lemma_norm_squared_bound(pa);
            crate::frames::lemma_norm_squared_bound(dir);
            crate::frames::lemma_lagrange_identity(pa, dir);
            lemma_projection_factor_bound(
                dot as int,
                nsq as int,
                pa.spec_norm_squared(),
                pa.spec_cross(dir),
            );
            lemma_div_round_mag(dot * TICKS_PER_UNIT, nsq as int, 3_000_000_000_000int);
        }
        let q = div_round_i128((dot as i128) * (TICKS_PER_UNIT as i128), nsq as i128);
        q as i64
    }

    /// X coordinate of the point of the segment closest to `point`.
    pub open spec fn spec_closest_x(self, point: Point<F>) -> int {
        let dot = self.spec_projection_dot(point);
        let nsq = self.spec_norm_squared();
        if dot <= 0 || nsq == 0 {
            self.0.x as int
        } else if dot >= nsq {
            self.1.x as int
        } else {
            self.0.x + div_round_spec((self.1.x - self.0.x) * dot, nsq)
        }
    }

    /// Y coordinate of the point of the segment closest to `point`.
    pub open spec fn spec_closest_y(self, point: Point<F>) -> int {
        let dot = self.spec_projection_dot(point);
        let nsq = self.spec_norm_squared();
        if dot <= 0 || nsq == 0 {
            self.0.y as int
        } else if dot >= nsq {
            self.1.y as int
        } else {
            self.0.y + div_round_spec((self.1.y - self.0.y) * dot, nsq)
        }
    }

    /// The point of the segment closest to `point`, the projection clamped
    /// to the endpoints and rounded to the tick grid.
    pub fn closest_point(&self, point: Point<F>) -> (r: Point<F>)
        requires
            self.wf(),
            point.wf(),
        ensures
            r.x == self.spec_closest_x(point),
            r.y == self.spec_closest_y(point),
            abs_int(r.x as int) <= crate::math::COORD_LIMIT + 1,
            abs_int(r.y as int) <= crate::math::COORD_LIMIT + 1,
    {
        let dir = self.1.minus(self.0);
        let pa = point.minus(self.0);
        let nsq = dir.norm_squared();
        if nsq == 0 {
            return self.0;
        }
        let dot = pa.dot(dir);
        if dot <= 0 {
            return self.0;
        }
        if dot >= nsq {
            return self.1;
        }
        proof {
            crate::frames::lemma_norm_squared_bound(dir);
            lemma_clamped_component_bound(dir.x as int, dot as int, nsq as int);
            lemma_clamped_component_bound(dir.y as int, dot as int, nsq as int);
        }
        let ox = div_round_i128((dir.x as i128) * (dot as i128), nsq as i128);
        let oy = div_round_i128((dir.y as i128) * (dot as i128), nsq as i128);
        Point::new(self.0.x + (ox as i64), self.0.y + (oy as i64))
    }

    /// Distance from `point` to the rounded closest point, in whole ticks.
    pub fn shortest_distance_to_point(&self, point: Point<F>) -> (r: i64)
        requires
            self.wf(),
            point.wf(),
        ensures
            r == isqrt_spec(
                (self.spec_closest_x(point) - point.x) * (self.spec_closest_x(point) - point.x) + (
                self.spec_closest_y(point) - point.y) * (self.spec_closest_y(point) - point.y),
            ),
    {
        let c = self.closest_point(point);
        let dx = c.x - point.x;
        let dy = c.y - point.y;
        proof {
            assert(0 <= dx * dx <= 0x2000_0000_0000_0000 && 0 <= dy * dy
                <= 0x2000_0000_0000_0000) by (nonlinear_arith)
                requires
                    -300_000_002 <= dx <= 300_000_002,
                    -300_000_002 <= dy <= 300_000_002,
            ;
        }
        let n: i64 = dx * dx + dy * dy;
        let r = isqrt_u128(n as u128);
        proof {
            assert(r as int <= 3_000_000_000) by (nonlinear_arith)
                requires
                    r >= 0,
                    (r as int) * (r as int) <= n as int,
                    n <= 0x4000_0000_0000_0000,
            ;
        }
        r as i64
    }

    /// Classifies `point` against the directed line through the segment.
    pub fn get_orientation(&self, point: Point<F>) -> (r: Orientation)
        requires
            self.wf(),
            point.wf(),
        ensures
            r == orient(self.0, self.1, point),
    {
        let direction_vector = self.1.minus(self.0);
        let clockwise_normal_vector = direction_vector.perp_clockwise();
        let directed_cathetus = clockwise_normal_vector.dot(point.minus(self.0));
        proof {
            assert(clockwise_normal_vector.spec_dot(
                Vector::<F> {
                    x: (point.x - self.0.x) as i64,
                    y: (point.y - self.0.y) as i64,
                    frame: core::marker::PhantomData,
                },
            ) == -orient_val(self.0, self.1, point)) by (nonlinear_arith)
                requires
                    clockwise_normal_vector.x == self.1.y - self.0.y,
                    clockwise_normal_vector.y == -(self.1.x - self.0.x),
                    self.wf(),
                    point.wf(),
            ;
        }
        if directed_cathetus > 0 {
            Orientation::Clockwise
        } else if directed_cathetus < 0 {
            Orientation::Counterclockwise
        } else {
            Orientation::Colinear
        }
    }

    /// Whether the two segments intersect; invariant under swapping the
    /// arguments and under flipping either segment (see
    /// [`lemma_intersects_permutation_invariant`]).
    pub fn intersects_line_segment(&self, other: LineSegment<F>) -> (r: bool)
        requires
            self.wf(),
            other.wf(),
        ensures
            r == seg_intersects(*self, other),
    {
        let o1 = self.get_orientation(other.0);
        let o2 = self.get_orientation(other.1);
        match (o1, o2) {
            (Orientation::Counterclockwise, Orientation::Counterclockwise)
            | (Orientation::Clockwise, Orientation::Clockwise) => false,
            (Orientation::Colinear, Orientation::Colinear) => self.overlaps_collinear_line_segment(
                other,
            ),
            _ => {
                let p1 = other.get_orientation(self.0);
                let p2 = other.get_orientation(self.1);
                p1 != p2 || p1 == Orientation::Colinear
            },
        }
    }

    fn overlaps_collinear_line_segment(&self, other: LineSegment<F>) -> (r: bool)
        ensures
            r == collinear_overlap(*self, other),
    {
        self.bounding_box_contains(other.0) || self.bounding_box_contains(other.1)
            || other.bounding_box_contains(self.0) || other.bounding_box_contains(self.1)
    }

    fn bounding_box_contains(&self, point: Point<F>) -> (r: bool)
        ensures
            r == bbox_strictly_contains(self.0, self.1, point),
    {
        let min_x = if self.0.x < self.1.x {
            self.0.x
        } else {
            self.1.x
        };
        let max_x = if self.0.x < self.1.x {
            self.1.x
        } else {
            self.0.x
        };
        let min_y = if self.0.y < self.1.y {
            self.0.y
        } else {
            self.1.y
        };
        let max_y = if self.0.y < self.1.y {
            self.1.y
        } else {
            self.0.y
        };
        point.x > min_x && point.x < max_x && point.y < max_y && point.y > min_y
    }
}

/// A nondegenerate well-formed segment has positive squared length.
proof fn lemma_nondegenerate_norm_pos<F>(s: LineSegment<F>)
    requires
        s.nondegenerate(),
    ensures
        s.spec_norm_squared() > 0,
{
    assert(s.spec_norm_squared() > 0) by (nonlinear_arith)
        requires
            s.1.x - s.0.x != 0 || s.1.y - s.0.y != 0,
            s.spec_norm_squared() == (s.1.x - s.0.x) * (s.1.x - s.0.x) + (s.1.y - s.0.y) * (s.1.y
                - s.0.y),
    ;
}

/// Bound used by `projection_factor`: by Cauchy-Schwarz the dot product is
/// at most `|pa| * |dir|`, so the scaled ratio fits far inside `i64`.
proof fn lemma_projection_factor_bound(dot: int, nsq: int, papa: int, cross: int)
    requires
        1 <= nsq <= 80_000_000_000_000_000,
        papa <= 80_000_000_000_000_000,
        dot * dot + cross * cross == papa * nsq,
    ensures
        abs_int(dot * TICKS_PER_UNIT) <= 3_000_000_000_000 * nsq,
        abs_int(dot * TICKS_PER_UNIT) <= 0x1000_0000_0000_0000_0000_0000_0000_0000,
{
    assert(abs_int(dot * TICKS_PER_UNIT) <= 3_000_000_000_000 * nsq) by (nonlinear_arith)
        requires
            nsq >= 1,
            papa <= 80_000_000_000_000_000,
            papa >= 0 || dot * dot + cross * cross == papa * nsq,
            dot * dot + cross * cross == papa * nsq,
            TICKS_PER_UNIT == 10_000int,
    ;
    assert(abs_int(dot * TICKS_PER_UNIT) <= 0x1000_0000_0000_0000_0000_0000_0000_0000)
        by (nonlinear_arith)
        requires
            nsq >= 1,
            papa <= 80_000_000_000_000_000,
            dot * dot + cross * cross == papa * nsq,
            TICKS_PER_UNIT == 10_000int,
            nsq <= 80_000_000_000_000_000,
    ;
}

/// Bound used by `closest_point`: with `0 < dot < nsq` the rounded component
/// `round(d * dot / nsq)` lies between `0` and `d`, up to one tick.
proof fn lemma_clamped_component_bound(d: int, dot: int, nsq: int)
    requires
        0 < dot < nsq,
        nsq <= 80_000_000_000_000_000,
        -200_000_000 <= d <= 200_000_000,
    ensures
        abs_int(d * dot) <= 0x1000_0000_0000_0000_0000_0000_0000_0000,
        d >= 0 ==> 0 <= div_round_spec(d * dot, nsq) <= d + 1,
        d < 0 ==> d - 1 <= div_round_spec(d * dot, nsq) <= 0,
{
    if d >= 0 {
        assert(0 <= d * dot && d * dot <= (d + 1) * nsq && d * dot
            <= 0x1000_0000_0000_0000_0000_0000_0000_0000) by (nonlinear_arith)
            requires
                0 < dot < nsq,
                nsq <= 80_000_000_000_000_000,
                0 <= d <= 200_000_000,
        ;
        lemma_div_round_mag(d * dot, nsq, d + 1);
    } else {
        assert(d * dot <= 0 && -(d * dot) <= (1 - d) * nsq && -(d * dot)
            <= 0x1000_0000_0000_0000_0000_0000_0000_0000) by (nonlinear_arith)
            requires
                0 < dot < nsq,
                nsq <= 80_000_000_000_000_000,
                -200_000_000 <= d < 0,
        ;
        lemma_div_round_mag(d * dot, nsq, 1 - d);
    }
}

/// Reversing the direction of the line reverses every classification.
pub proof fn lemma_orient_reverse<F>(a: Point<F>, b: Point<F>, c: Point<F>)
    ensures
        orient(b, a, c) == orient(a, b, c).reversed(),
{
    assert(orient_val(b, a, c) == -orient_val(a, b, c)) by (nonlinear_arith);
}

/// The Lagrange-style identity that carries collinearity across: with
/// `u`, `v`, `w` sharing a base point, `cross(v, w) * |u|^2` is a
/// combination of `cross(u, v)` and `cross(u, w)`.
proof fn lemma_cross_combination(ux: int, uy: int, vx: int, vy: int, wx: int, wy: int)
    ensures
        (ux * vy - uy * vx) * (ux * wx + uy * wy) - (ux * wy - uy * wx) * (ux * vx + uy * vy) + (vx
            * wy - vy * wx) * (ux * ux + uy * uy) == 0,
{
    crate::math::lemma_distribute(ux * vy, uy * vx, ux * wx, uy * wy);
    crate::math::lemma_distribute(ux * wy, uy * wx, ux * vx, uy * vy);
    crate::math::lemma_distribute(vx * wy, vy * wx, ux * ux, uy * uy);
    assert((ux * vy) * (ux * wx) == (vy * wx) * (ux * ux)) by (nonlinear_arith);
    assert((ux * vy) * (uy * wy) == (ux * wy) * (uy * vy)) by (nonlinear_arith);
    assert((uy * vx) * (ux * wx) == (uy * wx) * (ux * vx)) by (nonlinear_arith);
    assert((uy * vx) * (uy * wy) == (vx * wy) * (uy * uy)) by (nonlinear_arith);
    assert((ux * wy) * (ux * vx) == (vx * wy) * (ux * ux)) by (nonlinear_arith);
    assert((uy * wx) * (uy * vy) == (vy * wx) * (uy * uy)) by (nonlinear_arith);
}

/// Rewrites the four orientation values around two segments in terms of the
/// displacements from one shared base point.
#[verifier::rlimit(50)]
proof fn lemma_orient_val_rebase(ax: int, ay: int, bx: int, by: int, cx: int, cy: int, dx: int, dy: int)
    ensures
        (dx - cx) * (ay - cy) - (dy - cy) * (ax - cx) == ((cx - ax) * (dy - ay)) - ((cy - ay) * (dx
            - ax)),
        (dx - cx) * (by - cy) - (dy - cy) * (bx - cx) == -(((bx - ax) * (dy - ay)) - ((by - ay) * (
        dx - ax))) + (((cx - ax) * (dy - ay)) - ((cy - ay) * (dx - ax))) + (((bx - ax) * (cy - ay))
            - ((by - ay) * (cx - ax))),
{
    assert((dx - cx) * (ay - cy) - (dy - cy) * (ax - cx) == ((cx - ax) * (dy - ay)) - ((cy - ay) * (
    dx - ax))) by (nonlinear_arith);
    assert((dx - cx) * (by - cy) - (dy - cy) * (bx - cx) == -(((bx - ax) * (dy - ay)) - ((by - ay)
        * (dx - ax))) + (((cx - ax) * (dy - ay)) - ((cy - ay) * (dx - ax))) + (((bx - ax) * (cy
        - ay)) - ((by - ay) * (cx - ax)))) by (nonlinear_arith);
}

/// Two points collinear with a nondegenerate segment span the same line, so
/// the segment's endpoints are collinear with them in turn.
pub proof fn lemma_collinear_transfer<F>(a: Point<F>, b: Point<F>, c: Point<F>, d: Point<F>)
    requires
        orient_val(a, b, c) == 0,
        orient_val(a, b, d) == 0,
        a.x != b.x || a.y != b.y,
    ensures
        orient_val(c, d, a) == 0,
        orient_val(c, d, b) == 0,
{
    let ux = b.x - a.x;
    let uy = b.y - a.y;
    let vx = c.x - a.x;
    let vy = c.y - a.y;
    let wx = d.x - a.x;
    let wy = d.y - a.y;
    lemma_cross_combination(ux, uy, vx, vy, wx, wy);
    assert(orient_val(a, b, c) == ux * vy - uy * vx);
    assert(orient_val(a, b, d) == ux * wy - uy * wx);
    assert(ux * ux + uy * uy > 0) by (nonlinear_arith)
        requires
            ux != 0 || uy != 0,
    ;
    assert(vx * wy - vy * wx == 0) by (nonlinear_arith)
        requires
            (vx * wy - vy * wx) * (ux * ux + uy * uy) == 0,
            ux * ux + uy * uy > 0,
    ;
    lemma_orient_val_rebase(
        a.x as int,
        a.y as int,
        b.x as int,
        b.y as int,
        c.x as int,
        c.y as int,
        d.x as int,
        d.y as int,
    );
    assert(orient_val(c, d, a) == vx * wy - vy * wx);
}

/// Flipping either segment's endpoint order does not change the result of
/// the intersection test.
pub proof fn lemma_intersects_flip<F>(s: LineSegment<F>, o: LineSegment<F>)
    ensures
        seg_intersects(s.spec_flip(), o) == seg_intersects(s, o),
        seg_intersects(s, o.spec_flip()) == seg_intersects(s, o),
{
    lemma_orient_reverse(s.0, s.1, o.0);
    lemma_orient_reverse(s.0, s.1, o.1);
    lemma_orient_reverse(o.0, o.1, s.0);
    lemma_orient_reverse(o.0, o.1, s.1);
}

/// Outside the fully collinear case the test is equivalent to the symmetric
/// statement that neither segment sees both of the other's endpoints
/// strictly on one side.
proof fn lemma_intersects_characterization<F>(s: LineSegment<F>, o: LineSegment<F>)
    requires
        !(orient(s.0, s.1, o.0) == Orientation::Colinear && orient(s.0, s.1, o.1)
            == Orientation::Colinear),
    ensures
        seg_intersects(s, o) == (!strictly_same_side(s, o) && !strictly_same_side(o, s)),
{
}

/// Swapping which segment is `self` and which is `other` does not change
/// the result of the intersection test on nondegenerate segments.
pub proof fn lemma_intersects_swap<F>(s: LineSegment<F>, o: LineSegment<F>)
    requires
        s.nondegenerate(),
        o.nondegenerate(),
    ensures
        seg_intersects(o, s) == seg_intersects(s, o),
{
    let s_col = orient(s.0, s.1, o.0) == Orientation::Colinear && orient(s.0, s.1, o.1)
        == Orientation::Colinear;
    let o_col = orient(o.0, o.1, s.0) == Orientation::Colinear && orient(o.0, o.1, s.1)
        == Orientation::Colinear;
    if s_col {
        lemma_collinear_transfer(s.0, s.1, o.0, o.1);
        assert(o_col);
    } else if o_col {
        lemma_collinear_transfer(o.0, o.1, s.0, s.1);
        assert(s_col);
    } else {
        lemma_intersects_characterization(s, o);
        lemma_intersects_characterization(o, s);
    }
}

/// The intersection test is invariant under swapping the arguments and
/// under flipping either segment's endpoint order: all eight combinations
/// agree. Degenerate segments, whose endpoints coincide, are excluded; for
/// them the collinear fallback is not symmetric.
pub proof fn lemma_intersects_permutation_invariant<F>(s: LineSegment<F>, o: LineSegment<F>)
    requires
        s.nondegenerate(),
        o.nondegenerate(),
    ensures
        seg_intersects(s, o.spec_flip()) == seg_intersects(s, o),
        seg_intersects(s.spec_flip(), o) == seg_intersects(s, o),
        seg_intersects(s.spec_flip(), o.spec_flip()) == seg_intersects(s, o),
        seg_intersects(o, s) == seg_intersects(s, o),
        seg_intersects(o, s.spec_flip()) == seg_intersects(s, o),
        seg_intersects(o.spec_flip(), s) == seg_intersects(s, o),
        seg_intersects(o.spec_flip(), s.spec_flip()) == seg_intersects(s, o),
{
    lemma_intersects_flip(s, o);
    lemma_intersects_flip(s.spec_flip(), o);
    lemma_intersects_flip(s, o.spec_flip());
    lemma_intersects_swap(s, o);
    lemma_intersects_flip(o, s);
    lemma_intersects_flip(o.spec_flip(), s);
    lemma_intersects_flip(o, s.spec_flip());
}


/// Whether the rounded candidate intersection point `(px, py)` lies within
/// the segment's parameter range `[0, 1)` and inside the arc's sweep.
pub open spec fn spec_arc_candidate_hit<F>(
    s: LineSegment<F>,
    arc: crate::arc::Arc<F>,
    orientation: Orientation,
    px: int,
    py: int,
) -> bool {
    let dot_p = (px - s.0.x) * (s.1.x - s.0.x) + (py - s.0.y) * (s.1.y - s.0.y);
    let vs = Vector::<F> {
        x: (arc.start.x - arc.circle.center.x) as i64,
        y: (arc.start.y - arc.circle.center.y) as i64,
        frame: core::marker::PhantomData,
    };
    let vo = Vector::<F> {
        x: (px - arc.circle.center.x) as i64,
        y: (py - arc.circle.center.y) as i64,
        frame: core::marker::PhantomData,
    };
    let ve = Vector::<F> {
        x: (arc.end.x - arc.circle.center.x) as i64,
        y: (arc.end.y - arc.circle.center.y) as i64,
        frame: core::marker::PhantomData,
    };
    &&& 0 <= dot_p < s.spec_norm_squared()
    &&& crate::orientation::ccw_angle_lt(vs, vo, ve) != (orientation == Orientation::Clockwise)
}

/// Whether the segment overlaps the arc swept in the given direction: the
/// segment must pass strictly within the arc's radius, and one of the two
/// rounded chord intersection points must fall inside both the segment's
/// parameter range and the arc's sweep. Degenerate segments never overlap,
/// as in the floating-point formulation, whose intersection points are not
/// numbers there.
pub open spec fn spec_segment_overlaps_arc<F>(
    s: LineSegment<F>,
    arc: crate::arc::Arc<F>,
    orientation: Orientation,
) -> bool {
    let c = arc.circle.center;
    let rsq = arc.circle.radius * arc.circle.radius;
    let nsq = s.spec_norm_squared();
    if !crate::circle::spec_dist_to_segment_sq_le(s, c, rsq - 1) {
        false
    } else if nsq == 0 {
        false
    } else {
        let dot = s.spec_projection_dot(c);
        let dx = s.1.x - s.0.x;
        let dy = s.1.y - s.0.y;
        let bx = s.0.x + div_round_spec(dx * dot, nsq);
        let by = s.0.y + div_round_spec(dy * dot, nsq);
        let ctb_sq = (bx - c.x) * (bx - c.x) + (by - c.y) * (by - c.y);
        if ctb_sq > rsq {
            false
        } else {
            let n = isqrt_spec(nsq);
            let bti = isqrt_spec(rsq - ctb_sq);
            let shift_x = div_round_spec(dx * bti, n);
            let shift_y = div_round_spec(dy * bti, n);
            spec_arc_candidate_hit(s, arc, orientation, bx + shift_x, by + shift_y)
                || spec_arc_candidate_hit(s, arc, orientation, bx - shift_x, by - shift_y)
        }
    }
}

/// Shift bound for the chord intersection points: `|d| <= n` keeps each
/// rounded shift within twice the half-chord length.
proof fn lemma_arc_shift_bound(d: int, bti: int, nsq: int, n: int)
    requires
        d * d <= nsq,
        0 <= bti <= 100_000_000,
        1 <= n,
        n * n <= nsq < (n + 1) * (n + 1),
        nsq <= 80_000_000_000_000_000,
    ensures
        abs_int(d * bti) <= (2 * bti) * n,
        abs_int(d * bti) <= 0x1000_0000_0000_0000_0000_0000_0000_0000,
        abs_int(div_round_spec(d * bti, n)) <= 2 * bti,
        abs_int(div_round_spec(d * bti, n)) <= 200_000_000,
{
    assert(abs_int(d) <= n + 1) by (nonlinear_arith)
        requires
            d * d <= nsq,
            nsq < (n + 1) * (n + 1),
            n >= 1,
    ;
    assert(n <= 300_000_000) by (nonlinear_arith)
        requires
            n >= 1,
            n * n <= 80_000_000_000_000_000int,
    ;
    let ad = abs_int(d);
    assert(abs_int(d * bti) == ad * bti) by (nonlinear_arith)
        requires
            ad == abs_int(d),
            bti >= 0,
    ;
    assert(ad * bti <= (2 * bti) * n && ad * bti <= 0x1000_0000_0000_0000_0000_0000_0000_0000)
        by (nonlinear_arith)
        requires
            0 <= ad <= n + 1,
            1 <= n <= 300_000_000,
            0 <= bti <= 100_000_000,
    ;
    lemma_div_round_mag(d * bti, n, 2 * bti);
}

impl<F> LineSegment<F> {
    /// Executable form of [`spec_arc_candidate_hit`].
    fn arc_candidate_hit(
        &self,
        arc: &crate::arc::Arc<F>,
        orientation: Orientation,
        px: i64,
        py: i64,
    ) -> (r: bool)
        requires
            self.wf(),
            arc.wf(),
            abs_int(px as int) <= 700_000_000,
            abs_int(py as int) <= 700_000_000,
        ensures
            r == spec_arc_candidate_hit(*self, *arc, orientation, px as int, py as int),
    {
        let dir = self.1.minus(self.0);
        let nsq = dir.norm_squared();
        proof {
            crate::orientation::lemma_wide_products_small(
                px - self.0.x,
                py - self.0.y,
                dir.x as int,
                dir.y as int,
            );
        }
        let dot_p: i128 = crate::math::mul_wide(px - self.0.x, dir.x) + crate::math::mul_wide(
            py - self.0.y,
            dir.y,
        );
        if !(0 <= dot_p && dot_p < nsq as i128) {
            return false;
        }
        let vs = arc.start.minus(arc.circle.center);
        let vo = Vector::<F>::new(px - arc.circle.center.x, py - arc.circle.center.y);
        let ve = arc.end.minus(arc.circle.center);
        let in_sweep = crate::orientation::ccw_angle_lt_exec(vs, vo, ve);
        in_sweep != matches!(orientation, Orientation::Clockwise)
    }

    /// Executable form of [`spec_segment_overlaps_arc`].
    pub fn overlaps_arc(&self, arc: crate::arc::Arc<F>, orientation: Orientation) -> (r: bool)
        requires
            self.wf(),
            arc.wf(),
        ensures
            r == spec_segment_overlaps_arc(*self, arc, orientation),
    {
        proof {
            assert(0 <= arc.circle.radius * arc.circle.radius <= 0x2386_f26f_c10000_i64)
                by (nonlinear_arith)
                requires
                    0 <= arc.circle.radius <= 100_000_000,
            ;
        }
        let rsq: i64 = arc.circle.radius * arc.circle.radius;
        let center = arc.circle.center;
        if !crate::circle::dist_to_segment_sq_le(self, center, rsq - 1) {
            return false;
        }
        let dir = self.1.minus(self.0);
        let nsq = dir.norm_squared();
        if nsq == 0 {
            return false;
        }
        let pa = center.minus(self.0);
        let dot = pa.dot(dir);
        proof {
            crate::frames::lemma_norm_squared_bound(dir);
            crate::frames::lemma_norm_squared_bound(pa);
            crate::frames::lemma_lagrange_identity(dir, pa);
            assert(dir.x * dir.x <= nsq && dir.y * dir.y <= nsq) by (nonlinear_arith)
                requires
                    nsq == dir.x * dir.x + dir.y * dir.y,
            ;
            crate::line::lemma_project_component_bound(
                dir.x as int,
                dot as int,
                nsq as int,
                pa.spec_norm_squared(),
                dir.spec_cross(pa),
            );
            crate::line::lemma_project_component_bound(
                dir.y as int,
                dot as int,
                nsq as int,
                pa.spec_norm_squared(),
                dir.spec_cross(pa),
            );
        }
        let bsx = div_round_i128(crate::math::mul_i128(dir.x as i128, dot as i128), nsq as i128);
        let bsy = div_round_i128(crate::math::mul_i128(dir.y as i128, dot as i128), nsq as i128);
        let bx = self.0.x + (bsx as i64);
        let by = self.0.y + (bsy as i64);
        let cbx = bx - center.x;
        let cby = by - center.y;
        proof {
            crate::math::lemma_square_bound(cbx as int, 500_000_000);
            crate::math::lemma_square_bound(cby as int, 500_000_000);
        }
        let ctb_sq: i64 = ((cbx as i128) * (cbx as i128) + (cby as i128) * (cby as i128)) as i64;
        if ctb_sq > rsq {
            return false;
        }
        let n_u = isqrt_u128(nsq as u128);
        proof {
            assert(n_u as int <= 300_000_000 && 1 <= n_u) by (nonlinear_arith)
                requires
                    n_u >= 0,
                    (n_u as int) * (n_u as int) <= nsq as int,
                    nsq < (n_u as int + 1) * (n_u as int + 1),
                    1 <= nsq <= 80_000_000_000_000_000,
            ;
        }
        let n: i64 = n_u as i64;
        let bti_u = isqrt_u128((rsq - ctb_sq) as u128);
        proof {
            assert(bti_u as int <= 100_000_000) by (nonlinear_arith)
                requires
                    bti_u >= 0,
                    (bti_u as int) * (bti_u as int) <= rsq - ctb_sq,
                    rsq <= 0x2386_f26f_c10000_i64,
                    ctb_sq >= 0,
            ;
        }
        let bti: i64 = bti_u as i64;
        proof {
            lemma_arc_shift_bound(dir.x as int, bti as int, nsq as int, n as int);
            lemma_arc_shift_bound(dir.y as int, bti as int, nsq as int, n as int);
        }
        let sx = div_round_i128(crate::math::mul_i128(dir.x as i128, bti as i128), n as i128);
        let sy = div_round_i128(crate::math::mul_i128(dir.y as i128, bti as i128), n as i128);
        let hit_one = self.arc_candidate_hit(
            &arc,
            orientation,
            bx + (sx as i64),
            by + (sy as i64),
        );
        let hit_two = self.arc_candidate_hit(
            &arc,
            orientation,
            bx - (sx as i64),
            by - (sy as i64),
        );
        hit_one || hit_two
    }
}

} // verus!
