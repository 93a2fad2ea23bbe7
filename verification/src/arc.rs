//! Circular arcs: a circle with start and end points on its boundary.

use vstd::prelude::*;

use crate::circle::Circle;
use crate::frames::Point;

verus! {

/// An arc of `circle` from `start` to `end`; the sweep direction is given
/// separately as an [`crate::orientation::Orientation`] where it matters.
#[derive(Debug, PartialEq, Eq)]
#[verifier::reject_recursive_types(F)]
pub struct Arc<F> {
    pub circle: Circle<F>,
    pub start: Point<F>,
    pub end: Point<F>,
}

impl<F> Copy for Arc<F> {}

impl<F> Clone for Arc<F> {
    fn clone(&self) -> (r: Self)
        ensures
            r == *self,
    {
        Arc { circle: self.circle.clone(), start: self.start.clone(), end: self.end.clone() }
    }
}

impl<F> Arc<F> {
    pub open spec fn wf(self) -> bool {
        self.circle.wf() && self.start.wf() && self.end.wf()
    }

    pub fn new(circle: Circle<F>, start: Point<F>, end: Point<F>) -> (r: Self)
        ensures
            r.circle == circle,
            r.start == start,
            r.end == end,
    {
        Arc { circle, start, end }
    }
}

} // verus!
