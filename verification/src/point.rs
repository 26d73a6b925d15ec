//! Points of the plane.

use vstd::prelude::*;
use vstd::std_specs::cmp::PartialEqSpecImpl;
use crate::scalar::Scalar;

verus! {

/// A point of the plane, or the vector that leads to it from the point of reference.
#[derive(Clone, Copy, Debug)]
pub struct Point {
    pub x: Scalar,
    pub y: Scalar,
}

impl Point {
    /// The point with the given coordinates.
    pub fn new(x: Scalar, y: Scalar) -> (p: Point)
        ensures
            p == (Point { x, y }),
    {
        Point { x, y }
    }

    /// Whether two points have the same coordinates, as numbers.
    pub open spec fn same_place(self, other: Point) -> bool {
        self.x.same_number(other.x) && self.y.same_number(other.y)
    }
}

impl PartialEq for Point {
    /// Equality of the coordinates as numbers: a point with a NaN coordinate equals nothing.
    fn eq(&self, other: &Point) -> (r: bool) {
        self.x == other.x && self.y == other.y
    }
}

impl PartialEqSpecImpl for Point {
    open spec fn obeys_eq_spec() -> bool {
        true
    }

    open spec fn eq_spec(&self, other: &Point) -> bool {
        self.same_place(*other)
    }
}

} // verus!
