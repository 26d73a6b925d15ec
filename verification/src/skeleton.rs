//! The chain: an origin and at most two bones, each starting where the one before ends.

use vstd::prelude::*;
use crate::bone::Bone;
use crate::point::Point;
use crate::scalar::{Scalar, PI_BITS, ZERO_BITS};
use crate::solver::{spec_clamp_reach, tolerance, Solution, TOLERANCE_BITS};

verus! {

/// The most bones that a chain holds.
pub const MAX_BONES: usize = 2;

/// What a chain needs of its caller before it can follow a target.
#[derive(Clone, Copy, Debug)]
pub enum Plan {
    /// The chain has no bone: nothing is to be measured, and nothing will move.
    Rest,
    /// The chain has one bone: it asks for a [`Solution::Aim`].
    Aim,
    /// The chain has two bones, of the lengths given: it asks for a [`Solution::Reach`].
    Reach { first: Scalar, second: Scalar },
}

/// A chain as its callers see it: the origin, and the bones in order from the origin.
pub struct SkeletonView {
    pub origin: Point,
    pub bones: Seq<Bone>,
}

impl SkeletonView {
    /// What holds of every chain: it has at most two bones, and the first starts at the origin.
    pub open spec fn anchored(self) -> bool {
        &&& self.bones.len() <= MAX_BONES
        &&& self.bones.len() > 0 ==> self.bones[0].start == self.origin
    }

    /// Whether a bone of this length can be added: the chain has room, and the length is not
    /// zero or below. A length that is no number is neither, and passes.
    pub open spec fn accepts(self, length: Scalar) -> bool {
        self.bones.len() < MAX_BONES && !length.spec_le(Scalar { bits: ZERO_BITS })
    }

    /// What the chain needs of a solve, by the number of its bones.
    pub open spec fn plan(self) -> Plan {
        if self.bones.len() == 0 {
            Plan::Rest
        } else if self.bones.len() == 1 {
            Plan::Aim
        } else {
            Plan::Reach { first: self.bones[0].length, second: self.bones[1].length }
        }
    }

    /// The chain after [`Skeleton::add_bone`].
    pub open spec fn with_bone(self, length: Scalar, angle: Scalar, joint: Point) -> SkeletonView {
        if self.accepts(length) {
            let start = if self.bones.len() == 0 {
                self.origin
            } else {
                joint
            };
            SkeletonView { bones: self.bones.push(Bone { start, length, angle }), ..self }
        } else {
            self
        }
    }

    /// The chain after [`Skeleton::set_origin`].
    pub open spec fn with_origin(self, origin: Point, joint: Point) -> SkeletonView {
        SkeletonView {
            origin,
            bones: Seq::new(
                self.bones.len(),
                |i: int|
                    Bone {
                        start: if i == 0 {
                            origin
                        } else {
                            joint
                        },
                        ..self.bones[i]
                    },
            ),
        }
    }

    /// The chain after [`Skeleton::update`].
    pub open spec fn updated(self, solution: Solution) -> SkeletonView {
        match solution {
            Solution::Aim { distance, bearing } => {
                if self.bones.len() == 1 {
                    let angle = if distance.spec_gt(tolerance()) {
                        bearing
                    } else {
                        self.bones[0].angle
                    };
                    SkeletonView {
                        bones: seq![Bone { start: self.origin, angle, ..self.bones[0] }],
                        ..self
                    }
                } else {
                    self
                }
            },
            Solution::Reach { span, first, second, joint } => {
                if self.bones.len() == 2 {
                    let folded = span.spec_lt(tolerance());
                    let first_angle = if folded {
                        Scalar { bits: ZERO_BITS }
                    } else {
                        first
                    };
                    let second_angle = if folded {
                        Scalar { bits: PI_BITS }
                    } else {
                        second
                    };
                    SkeletonView {
                        bones: seq![
                            Bone { start: self.origin, angle: first_angle, ..self.bones[0] },
                            Bone { start: joint, angle: second_angle, ..self.bones[1] },
                        ],
                        ..self
                    }
                } else {
                    self
                }
            },
        }
    }
}

/// Taking the same solution twice leaves the chain as taking it once does.
pub proof fn lemma_update_twice(chain: SkeletonView, solution: Solution)
    ensures
        chain.updated(solution).updated(solution) == chain.updated(solution),
{
    let once = chain.updated(solution);
    assert(once.updated(solution).bones =~= once.bones);
}

/// A target on the origin of a chain whose two bones are equally long folds the chain.
///
/// The distance of such a target is zero, and so is the difference of the lengths. The
/// distance to span is then zero as well, and a chain that is handed a span of zero takes the
/// pose with the angles zero and pi, whatever angles come with it.
pub proof fn lemma_target_on_origin_folds(
    chain: SkeletonView,
    distance: Scalar,
    difference: Scalar,
    sum: Scalar,
    span: Scalar,
    first: Scalar,
    second: Scalar,
    joint: Point,
)
    requires
        chain.bones.len() == 2,
        distance.same_number(Scalar { bits: ZERO_BITS }),
        difference.same_number(Scalar { bits: ZERO_BITS }),
        (Scalar { bits: ZERO_BITS }).spec_le(sum),
        span.same_number(spec_clamp_reach(distance, difference, sum)),
    ensures
        spec_clamp_reach(distance, difference, sum) == distance,
        chain.updated(Solution::Reach { span, first, second, joint }).bones[0].angle.bits
            == ZERO_BITS,
        chain.updated(Solution::Reach { span, first, second, joint }).bones[1].angle.bits
            == PI_BITS,
{
    assert(difference.spec_abs().magnitude() == difference.magnitude());
}

/// Each operation keeps a chain anchored: at most two bones, the first at the origin.
pub proof fn lemma_chain_stays_anchored(
    chain: SkeletonView,
    length: Scalar,
    angle: Scalar,
    origin: Point,
    joint: Point,
    solution: Solution,
)
    requires
        chain.anchored(),
    ensures
        chain.with_bone(length, angle, joint).anchored(),
        chain.with_origin(origin, joint).anchored(),
        chain.updated(solution).anchored(),
{
}

/// The bones of a chain, by their number.
#[derive(Clone, Copy, Debug)]
enum Links {
    Empty,
    One(Bone),
    Two(Bone, Bone),
}

impl Links {
    spec fn bones(self) -> Seq<Bone> {
        match self {
            Links::Empty => Seq::empty(),
            Links::One(first) => seq![first],
            Links::Two(first, second) => seq![first, second],
        }
    }
}

/// A chain of at most two bones, anchored at an origin.
///
/// The chain keeps the first bone at the origin by itself. The point where the first bone
/// ends takes trigonometry to find, so each operation that moves the second bone is told that
/// point by the caller.
#[derive(Debug)]
pub struct Skeleton {
    origin: Point,
    links: Links,
}

impl View for Skeleton {
    type V = SkeletonView;

    closed spec fn view(&self) -> SkeletonView {
        SkeletonView { origin: self.origin, bones: self.links.bones() }
    }
}

impl Clone for Skeleton {
    /// A second chain with the same origin and the same bones.
    fn clone(&self) -> (copy: Skeleton)
        ensures
            copy@ == self@,
    {
        proof {
            use_type_invariant(self);
        }
        Skeleton { origin: self.origin, links: self.links }
    }
}

impl Skeleton {
    #[verifier::type_invariant]
    spec fn first_bone_at_origin(&self) -> bool {
        self@.anchored()
    }

    /// An empty chain at the given origin.
    pub fn new(origin: Point) -> (skeleton: Skeleton)
        ensures
            skeleton@ == (SkeletonView { origin, bones: Seq::empty() }),
    {
        Skeleton { origin, links: Links::Empty }
    }

    /// Appends a bone to the chain.
    ///
    /// Nothing happens if the chain has two bones already, or if `length` is zero or below.
    /// Otherwise the first bone of a chain starts at the origin, and the second at `joint`,
    /// which is to be the point where the first one ends.
    pub fn add_bone(&mut self, length: Scalar, angle: Scalar, joint: Point)
        ensures
            final(self)@ == old(self)@.with_bone(length, angle, joint),
            final(self)@.anchored(),
            final(self)@.origin == old(self)@.origin,
            !old(self)@.accepts(length) ==> final(self)@ == old(self)@,
            old(self)@.accepts(length) ==> final(self)@.bones.len() == old(self)@.bones.len() + 1,
            forall|i: int|
                0 <= i < old(self)@.bones.len() ==> final(self)@.bones[i] == old(self)@.bones[i],
    {
        proof {
            use_type_invariant(&*self);
        }
        if length.le(Scalar { bits: ZERO_BITS }) {
            return ;
        }
        match self.links {
            Links::Empty => {
                self.links = Links::One(Bone::new(self.origin, length, angle));
            },
            Links::One(first) => {
                self.links = Links::Two(first, Bone::new(joint, length, angle));
            },
            Links::Two(_, _) => {},
        }
        assert(self@.bones =~= old(self)@.with_bone(length, angle, joint).bones);
    }

    /// Tells which solve the chain is ready to take over in [`Skeleton::update`].
    pub fn plan(&self) -> (plan: Plan)
        ensures
            plan == self@.plan(),
            plan is Rest <==> self@.bones.len() == 0,
            plan is Aim <==> self@.bones.len() == 1,
            plan is Reach <==> self@.bones.len() == 2,
    {
        proof {
            use_type_invariant(self);
        }
        match self.links {
            Links::Empty => Plan::Rest,
            Links::One(_) => Plan::Aim,
            Links::Two(first, second) => Plan::Reach {
                first: first.length(),
                second: second.length(),
            },
        }
    }

    /// Takes over what a solve has found, by the number of bones in the chain.
    ///
    /// - A chain without bones stays as it is.
    /// - A chain of one bone takes a [`Solution::Aim`]: the bone turns to the bearing if the
    ///   target lies further from the origin than the tolerance, and keeps its angle if not.
    /// - A chain of two bones takes a [`Solution::Reach`]: if the span is below the tolerance
    ///   the first bone lies along the x axis and the second is folded back by the angle pi;
    ///   otherwise the bones take the two angles given. The second bone starts at the joint.
    /// - A solution of the other kind changes nothing.
    ///
    /// The lengths never change, and the first bone starts at the origin afterwards.
    pub fn update(&mut self, solution: Solution)
        ensures
            final(self)@ == old(self)@.updated(solution),
            final(self)@.anchored(),
            final(self)@.origin == old(self)@.origin,
            final(self)@.bones.len() == old(self)@.bones.len(),
            forall|i: int|
                0 <= i < old(self)@.bones.len() ==> final(self)@.bones[i].length
                    == old(self)@.bones[i].length,
            old(self)@.bones.len() == 0 ==> final(self)@ == old(self)@,
            old(self)@.bones.len() == 1 && solution is Reach ==> final(self)@ == old(self)@,
            old(self)@.bones.len() == 2 && solution is Aim ==> final(self)@ == old(self)@,
            old(self)@.bones.len() == 1 ==> (solution matches Solution::Aim { distance, bearing }
                ==> {
                let before = old(self)@.bones[0];
                let after = final(self)@.bones[0];
                &&& distance.gt(tolerance()) ==> after.angle == bearing
                &&& !distance.gt(tolerance()) ==> after.angle == before.angle
            }),
            old(self)@.bones.len() == 2 ==> (solution matches Solution::Reach {
                span,
                first,
                second,
                joint,
            } ==> {
                let after = final(self)@.bones;
                &&& after[1].start == joint
                &&& span.lt(tolerance()) ==> after[0].angle.bits == ZERO_BITS
                    && after[1].angle.bits == PI_BITS
                &&& !span.lt(tolerance()) ==> after[0].angle == first && after[1].angle == second
            }),
    {
        proof {
            use_type_invariant(&*self);
        }
        let limit = Scalar { bits: TOLERANCE_BITS };
        match (self.links, solution) {
            (Links::One(bone), Solution::Aim { distance, bearing }) => {
                let mut bone = bone;
                if distance.gt(limit) {
                    bone.set_angle(bearing);
                }
                bone.set_start(self.origin);
                self.links = Links::One(bone);
            },
            (Links::Two(first_bone, second_bone), Solution::Reach { span, first, second, joint }) => {
                let mut first_bone = first_bone;
                let mut second_bone = second_bone;
                if span.lt(limit) {
                    first_bone.set_angle(Scalar { bits: ZERO_BITS });
                    second_bone.set_angle(Scalar { bits: PI_BITS });
                } else {
                    first_bone.set_angle(first);
                    second_bone.set_angle(second);
                }
                first_bone.set_start(self.origin);
                second_bone.set_start(joint);
                self.links = Links::Two(first_bone, second_bone);
            },
            _ => {},
        }
        assert(self@.bones =~= old(self)@.updated(solution).bones);
    }

    /// The number of bones in the chain: none, one or two.
    pub fn bone_count(&self) -> (count: usize)
        ensures
            count == self@.bones.len(),
            count <= MAX_BONES,
            self@.anchored(),
    {
        proof {
            use_type_invariant(self);
        }
        match self.links {
            Links::Empty => 0,
            Links::One(_) => 1,
            Links::Two(_, _) => 2,
        }
    }

    /// The point at which the chain is anchored.
    pub fn origin(&self) -> (origin: Point)
        ensures
            origin == self@.origin,
    {
        self.origin
    }

    /// The bone at `index`, counted from the origin, if the chain has that many.
    pub fn bone(&self, index: usize) -> (bone: Option<Bone>)
        ensures
            index < self@.bones.len() ==> bone == Some(self@.bones[index as int]),
            index >= self@.bones.len() ==> bone.is_none(),
    {
        match self.links {
            Links::Empty => None,
            Links::One(first) => if index == 0 {
                Some(first)
            } else {
                None
            },
            Links::Two(first, second) => if index == 0 {
                Some(first)
            } else if index == 1 {
                Some(second)
            } else {
                None
            },
        }
    }

    /// Anchors the chain at another origin.
    ///
    /// The first bone moves to the new origin, and the second to `joint`, which is to be the
    /// point where the first one ends once it has moved. No length and no angle changes.
    pub fn set_origin(&mut self, new_origin: Point, joint: Point)
        ensures
            final(self)@ == old(self)@.with_origin(new_origin, joint),
            final(self)@.anchored(),
            final(self)@.origin == new_origin,
            final(self)@.bones.len() == old(self)@.bones.len(),
            forall|i: int|
                0 <= i < old(self)@.bones.len() ==> {
                    &&& final(self)@.bones[i].length == old(self)@.bones[i].length
                    &&& final(self)@.bones[i].angle == old(self)@.bones[i].angle
                },
            final(self)@.bones.len() > 1 ==> final(self)@.bones[1].start == joint,
    {
        proof {
            use_type_invariant(&*self);
        }
        let links = match self.links {
            Links::Empty => Links::Empty,
            Links::One(first) => {
                let mut first = first;
                first.set_start(new_origin);
                Links::One(first)
            },
            Links::Two(first, second) => {
                let mut first = first;
                let mut second = second;
                first.set_start(new_origin);
                second.set_start(joint);
                Links::Two(first, second)
            },
        };
        assert(links.bones() =~= old(self)@.with_origin(new_origin, joint).bones);
        *self = Skeleton { origin: new_origin, links };
    }
}

} // verus!
