//! Infinite lines through two points: projection and intersection.

use vstd::prelude::*;

use crate::frames::Point;
use crate::math::{abs_int, div_round_i128, div_round_spec, lemma_div_round_mag, mul_i128};

verus! {

/// The infinite line through two distinct points; also used as a plain pair
/// of points where only the endpoints matter.
#[derive(Debug, PartialEq, Eq)]
#[verifier::reject_recursive_types(F)]
pub struct Line<F>(pub Point<F>, pub Point<F>);

impl<F> Copy for Line<F> {}

impl<F> Clone for Line<F> {
    fn clone(&self) -> (r: Self)
        ensures
            r == *self,
    {
        Line(self.0.clone(), self.1.clone())
    }
}

/// A 2-D line, named for symmetry with the point and vector aliases.
pub type Line2<F> = Line<F>;

impl<F> Line<F> {
    pub open spec fn wf(self) -> bool {
        self.0.wf() && self.1.wf()
    }

    pub open spec fn nondegenerate(self) -> bool {
        self.0.x != self.1.x || self.0.y != self.1.y
    }

    /// Direction dot product locating the projection of `p` along the line.
    pub open spec fn spec_projection_dot(self, p: Point<F>) -> int {
        (p.x - self.0.x) * (self.1.x - self.0.x) + (p.y - self.0.y) * (self.1.y - self.0.y)
    }

    pub open spec fn spec_norm_squared(self) -> int {
        crate::frames::spec_dist_squared(self.0, self.1)
    }

    /// X coordinate of the unclamped projection of `p` onto the line.
    pub open spec fn spec_project_x(self, p: Point<F>) -> int {
        self.0.x + div_round_spec(
            (self.1.x - self.0.x) * self.spec_projection_dot(p),
            self.spec_norm_squared(),
        )
    }

    /// Y coordinate of the unclamped projection of `p` onto the line.
    pub open spec fn spec_project_y(self, p: Point<F>) -> int {
        self.0.y + div_round_spec(
            (self.1.y - self.0.y) * self.spec_projection_dot(p),
            self.spec_norm_squared(),
        )
    }

    /// The point of the infinite line closest to `point`, rounded to ticks.
    pub fn project_point(&self, point: Point<F>) -> (r: Point<F>)
        requires
            self.wf(),
            point.wf(),
            self.nondegenerate(),
        ensures
            r.x == self.spec_project_x(point),
            r.y == self.spec_project_y(point),
            abs_int(r.x as int) <= 400_000_000,
            abs_int(r.y as int) <= 400_000_000,
    {
        let dir = self.1.minus(self.0);
        let pa = point.minus(self.0);
        let nsq = dir.norm_squared();
        let dot = pa.dot(dir);
        proof {
            assert(nsq >= 1) by (nonlinear_arith)
                requires
                    nsq == dir.x * dir.x + dir.y * dir.y,
                    dir.x != 0 || dir.y != 0,
            ;
            crate::frames::lemma_norm_squared_bound(dir);
            crate::frames::lemma_norm_squared_bound(pa);
            crate::frames::lemma_lagrange_identity(dir, pa);
            assert(dir.x * dir.x <= nsq && dir.y * dir.y <= nsq) by (nonlinear_arith)
                requires
                    nsq == dir.x * dir.x + dir.y * dir.y,
            ;
            lemma_project_component_bound(
                dir.x as int,
                dot as int,
                nsq as int,
                pa.spec_norm_squared(),
                dir.spec_cross(pa),
            );
            lemma_project_component_bound(
                dir.y as int,
                dot as int,
                nsq as int,
                pa.spec_norm_squared(),
                dir.spec_cross(pa),
            );
        }
        let sx = div_round_i128(mul_i128(dir.x as i128, dot as i128), nsq as i128);
        let sy = div_round_i128(mul_i128(dir.y as i128, dot as i128), nsq as i128);
        Point::new(self.0.x + (sx as i64), self.0.y + (sy as i64))
    }
}

/// Bound for the unclamped projection: by Cauchy-Schwarz the shift along
/// each axis is at most the distance from the base point, within a tick.
pub(crate) proof fn lemma_project_component_bound(d: int, dot: int, nsq: int, papa: int, cross: int)
    requires
        1 <= nsq <= 80_000_000_000_000_000,
        0 <= papa <= 80_000_000_000_000_000,
        d * d <= nsq,
        dot * dot + cross * cross == nsq * papa,
    ensures
        abs_int(d * dot) <= 300_000_000 * nsq,
        abs_int(d * dot) <= 0x1000_0000_0000_0000_0000_0000_0000_0000,
        abs_int(div_round_spec(d * dot, nsq)) <= 300_000_000,
        abs_int(dot) <= 4_000_000_000_000_000_000,
{
    assert(dot * dot <= nsq * papa) by (nonlinear_arith)
        requires
            dot * dot + cross * cross == nsq * papa,
    ;
    assert(abs_int(dot) <= 4_000_000_000_000_000_000) by (nonlinear_arith)
        requires
            dot * dot <= nsq * papa,
            1 <= nsq <= 80_000_000_000_000_000,
            0 <= papa <= 80_000_000_000_000_000,
    ;
    assert((d * dot) * (d * dot) <= (300_000_000 * nsq) * (300_000_000 * nsq))
        by (nonlinear_arith)
        requires
            d * d <= nsq,
            dot * dot <= nsq * papa,
            0 <= papa <= 80_000_000_000_000_000,
            nsq >= 1,
    ;
    assert(abs_int(d * dot) <= 300_000_000 * nsq) by (nonlinear_arith)
        requires
            (d * dot) * (d * dot) <= (300_000_000 * nsq) * (300_000_000 * nsq),
            nsq >= 1,
    ;
    assert(300_000_000 * nsq <= 0x1000_0000_0000_0000_0000_0000_0000_0000) by (nonlinear_arith)
        requires
            1 <= nsq <= 80_000_000_000_000_000,
    ;
    lemma_div_round_mag(d * dot, nsq, 300_000_000);
}

} // verus!
