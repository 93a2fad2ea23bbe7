//! Axis-aligned rectangles, used as bounding boxes.

use vstd::prelude::*;

use crate::frames::Point;

verus! {

/// An axis-aligned rectangle given by its two extreme corners.
#[derive(Debug, PartialEq, Eq)]
#[verifier::reject_recursive_types(F)]
pub struct Rectangle<F> {
    pub min: Point<F>,
    pub max: Point<F>,
}

impl<F> Copy for Rectangle<F> {}

impl<F> Clone for Rectangle<F> {
    fn clone(&self) -> (r: Self)
        ensures
            r == *self,
    {
        Rectangle { min: self.min.clone(), max: self.max.clone() }
    }
}

} // verus!
