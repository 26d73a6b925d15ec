//! A single bone of a chain.

use vstd::prelude::*;
use vstd::std_specs::cmp::PartialEqSpecImpl;
use crate::point::Point;
use crate::scalar::Scalar;

verus! {

/// A rigid link: where it starts, how long it is, and the direction in which it points.
///
/// The angle is in radians and absolute: it is measured against the x axis, not against the
/// bone before. Where the bone ends follows from the three by trigonometry, which is left to
/// the caller.
#[derive(Clone, Copy, Debug)]
pub struct Bone {
    pub start: Point,
    pub length: Scalar,
    pub angle: Scalar,
}

impl Bone {
    /// A bone from its three properties. None of them is examined: a length that is zero,
    /// negative or no number is taken as it comes.
    pub fn new(start: Point, length: Scalar, angle: Scalar) -> (bone: Bone)
        ensures
            bone == (Bone { start, length, angle }),
    {
        Bone { start, length, angle }
    }

    /// Where the bone starts.
    pub fn start(&self) -> (start: Point)
        ensures
            start == self.start,
    {
        self.start
    }

    /// Moves the start of the bone. Length and angle stay.
    pub fn set_start(&mut self, start: Point)
        ensures
            *final(self) == (Bone { start, ..*old(self) }),
    {
        self.start = start;
    }

    /// The length of the bone.
    pub fn length(&self) -> (length: Scalar)
        ensures
            length == self.length,
    {
        self.length
    }

    /// Gives the bone another length. Start and angle stay.
    pub fn set_length(&mut self, length: Scalar)
        ensures
            *final(self) == (Bone { length, ..*old(self) }),
    {
        self.length = length;
    }

    /// The angle of the bone, in radians.
    pub fn angle(&self) -> (angle: Scalar)
        ensures
            angle == self.angle,
    {
        self.angle
    }

    /// Turns the bone to another angle, in radians. Start and length stay.
    pub fn set_angle(&mut self, angle: Scalar)
        ensures
            *final(self) == (Bone { angle, ..*old(self) }),
    {
        self.angle = angle;
    }

    /// Whether two bones have the same start, length and angle, as numbers.
    pub open spec fn same_bone(self, other: Bone) -> bool {
        &&& self.start.same_place(other.start)
        &&& self.length.same_number(other.length)
        &&& self.angle.same_number(other.angle)
    }
}

impl PartialEq for Bone {
    /// Equality of the three properties as numbers: a bone with a NaN in it equals nothing.
    fn eq(&self, other: &Bone) -> (r: bool) {
        self.start == other.start && self.length == other.length && self.angle == other.angle
    }
}

impl PartialEqSpecImpl for Bone {
    open spec fn obeys_eq_spec() -> bool {
        true
    }

    open spec fn eq_spec(&self, other: &Bone) -> bool {
        self.same_bone(*other)
    }
}

} // verus!
