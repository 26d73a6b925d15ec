//! The rules of the solver: what is decided on the numbers between the steps of arithmetic.
//!
//! To bend a chain of two bones towards a target, the caller measures, the rules here decide,
//! and the caller measures again:
//!
//! 1. The caller measures how far the target lies from the origin, and the difference and the
//!    sum of the two lengths. [`clamp_reach`] brings the distance into the band that the chain
//!    can span.
//! 2. The caller moves the target to that distance, measures the distance again, and works
//!    out the two cosines of the triangle that the bones form with the line to the target.
//!    [`triangle`] tells whether the chain folds up, and otherwise brings both cosines into
//!    the domain of the arc cosine.
//! 3. The caller turns the cosines into the two angles and hands them to the chain in a
//!    [`Solution`].

use vstd::prelude::*;
use vstd::arithmetic::power2::{
    lemma2_to64, lemma_pow2_adds, lemma_pow2_pos, lemma_pow2_unfold, pow2,
};
use crate::point::Point;
use crate::scalar::{Scalar, NEG_ONE_BITS, ONE_BITS, PI_BITS, ZERO_BITS};

verus! {

/// The encoding of the single-precision number nearest to a thousandth: a distance below it
/// counts as none.
pub const TOLERANCE_BITS: u32 = 0x3a83_126f;

/// The distance below which a target counts as lying on the origin.
pub open spec fn tolerance() -> Scalar {
    Scalar { bits: TOLERANCE_BITS }
}

/// The tolerance is a positive number, and a thousandth to less than one part in twenty
/// million: it is counted in the units of [`Scalar::value`], in which one is two to the
/// power of 149.
pub proof fn lemma_value_of_tolerance()
    ensures
        !tolerance().is_nan(),
        tolerance().value() > 0,
        1000 * tolerance().value() >= pow2(149),
        20_000_000 * (1000 * tolerance().value() - pow2(149)) < pow2(149),
{
    lemma2_to64();
    lemma_pow2_unfold(33);
    lemma_pow2_adds(33, 116);
    lemma_pow2_pos(116);
    assert(tolerance().exponent() == 117 && tolerance().fraction() == 0x3_126f);
    let scale = pow2(116) as int;
    assert(tolerance().value() == 8_589_935 * scale);
    assert(pow2(149) == 8_589_934_592 * scale);
    assert(8_589_935 * scale > 0 && 1000 * (8_589_935 * scale) >= 8_589_934_592 * scale
        && 20_000_000 * (1000 * (8_589_935 * scale) - 8_589_934_592 * scale) < 8_589_934_592
        * scale) by (nonlinear_arith)
        requires
            scale > 0,
    ;
}

/// What is left to do for a chain of two bones once the distance to span is known.
#[derive(Clone, Copy, Debug)]
pub enum Triangle {
    /// The target lies on the origin, where no direction leads to it. The chain takes a fixed
    /// pose: the first bone along the x axis, the second folded back onto it.
    Folded { first: Scalar, second: Scalar },
    /// The bones and the line to the target form a triangle. `interior` is the cosine of the
    /// angle between the bones, `offset` the cosine of the angle between the first bone and
    /// the line to the target. Unless it is a NaN, each lies between minus one and one.
    Open { interior: Scalar, offset: Scalar },
}

/// What a solve hands to the chain.
#[derive(Clone, Copy, Debug)]
pub enum Solution {
    /// For a chain of one bone: how far the target lies from the origin, and the direction
    /// that leads to it, in radians.
    Aim { distance: Scalar, bearing: Scalar },
    /// For a chain of two bones: the distance from the origin that the chain is to span, the
    /// angle of each bone in radians, and the point where the first bone then ends.
    Reach { span: Scalar, first: Scalar, second: Scalar, joint: Point },
}

/// The distance that a chain of two bones spans when its target lies at `distance`:
/// `distance` brought into the band from the absolute value of `difference` to `sum`.
pub open spec fn spec_clamp_reach(distance: Scalar, difference: Scalar, sum: Scalar) -> Scalar {
    distance.spec_clamp(difference.spec_abs(), sum)
}

/// The rule of [`triangle`].
pub open spec fn spec_triangle(span: Scalar, cos_interior: Scalar, cos_offset: Scalar) -> Triangle {
    if span.spec_lt(tolerance()) {
        Triangle::Folded { first: Scalar { bits: ZERO_BITS }, second: Scalar { bits: PI_BITS } }
    } else {
        Triangle::Open {
            interior: cos_interior.spec_clamp(
                Scalar { bits: NEG_ONE_BITS },
                Scalar { bits: ONE_BITS },
            ),
            offset: cos_offset.spec_clamp(
                Scalar { bits: NEG_ONE_BITS },
                Scalar { bits: ONE_BITS },
            ),
        }
    }
}

/// Brings the distance of a target into the band that a chain of two bones can span.
///
/// `difference` is the first length less the second, `sum` the two added. A target nearer
/// than the absolute difference is moved out to it, one further than the sum is moved in to
/// it, and one in between stays where it is.
#[verifier::when_used_as_spec(spec_clamp_reach)]
pub fn clamp_reach(distance: Scalar, difference: Scalar, sum: Scalar) -> (reach: Scalar)
    ensures
        reach == spec_clamp_reach(distance, difference, sum),
        !distance.is_nan() && difference.abs().le(sum) ==> difference.abs().le(reach)
            && reach.le(sum),
        difference.abs().le(distance) && distance.le(sum) ==> reach == distance,
{
    distance.clamp(difference.abs(), sum)
}

/// A distance brought into reach admits a triangle.
///
/// Take two bones of positive lengths, and let `difference` and `sum` be their difference and
/// their sum without rounding. With `d` the distance that [`clamp_reach`] then gives, the law
/// of cosines finds both cosines of the triangle between minus one and one: the numerator of
/// each is no larger in size than its denominator. What [`triangle`] clamps away is rounding
/// alone.
pub proof fn lemma_reach_admits_a_triangle(
    first: Scalar,
    second: Scalar,
    distance: Scalar,
    difference: Scalar,
    sum: Scalar,
)
    requires
        (Scalar { bits: ZERO_BITS }).spec_lt(first),
        (Scalar { bits: ZERO_BITS }).spec_lt(second),
        !distance.is_nan(),
        !difference.is_nan(),
        !sum.is_nan(),
        difference.value() == first.value() - second.value(),
        sum.value() == first.value() + second.value(),
    ensures
        ({
            let l1 = first.value();
            let l2 = second.value();
            let d = spec_clamp_reach(distance, difference, sum).value();
            &&& -(2 * l1 * l2) <= l1 * l1 + l2 * l2 - d * d <= 2 * l1 * l2
            &&& -(2 * l1 * d) <= l1 * l1 + d * d - l2 * l2 <= 2 * l1 * d
        }),
{
    let l1 = first.value();
    let l2 = second.value();
    let lower = difference.spec_abs();
    let reach = spec_clamp_reach(distance, difference, sum);
    let d = reach.value();
    assert(lower.magnitude() == difference.magnitude());
    first.lemma_rank_orders_as_value(Scalar { bits: ZERO_BITS });
    second.lemma_rank_orders_as_value(Scalar { bits: ZERO_BITS });
    distance.lemma_rank_orders_as_value(lower);
    distance.lemma_rank_orders_as_value(sum);
    assert(l1 - l2 <= d && l2 - l1 <= d && d <= l1 + l2);
    assert(-(2 * l1 * l2) <= l1 * l1 + l2 * l2 - d * d <= 2 * l1 * l2) by (nonlinear_arith)
        requires
            l1 > 0,
            l2 > 0,
            l1 - l2 <= d,
            l2 - l1 <= d,
            d <= l1 + l2,
    ;
    assert(-(2 * l1 * d) <= l1 * l1 + d * d - l2 * l2 <= 2 * l1 * d) by (nonlinear_arith)
        requires
            l1 > 0,
            l2 > 0,
            l1 - l2 <= d,
            l2 - l1 <= d,
            d <= l1 + l2,
    ;
}

/// Decides between the folded pose and the triangle.
///
/// `span` is the distance from the origin to the target after [`clamp_reach`] has moved it.
/// Below the tolerance the chain folds, whatever the cosines are. Otherwise each cosine is
/// brought into the band from minus one to one, so that rounding in the division that gave it
/// cannot lead the arc cosine out of its domain.
#[verifier::when_used_as_spec(spec_triangle)]
pub fn triangle(span: Scalar, cos_interior: Scalar, cos_offset: Scalar) -> (t: Triangle)
    ensures
        t == spec_triangle(span, cos_interior, cos_offset),
        span.lt(tolerance()) <==> t is Folded,
        t matches Triangle::Folded { first, second } ==> first.bits == ZERO_BITS && second.bits
            == PI_BITS,
        t matches Triangle::Open { interior, offset } ==> {
            let low = Scalar { bits: NEG_ONE_BITS };
            let high = Scalar { bits: ONE_BITS };
            &&& !cos_interior.is_nan() ==> low.le(interior) && interior.le(high)
            &&& !cos_offset.is_nan() ==> low.le(offset) && offset.le(high)
            &&& low.le(cos_interior) && cos_interior.le(high) ==> interior == cos_interior
            &&& low.le(cos_offset) && cos_offset.le(high) ==> offset == cos_offset
        },
{
    if span.lt(Scalar { bits: TOLERANCE_BITS }) {
        Triangle::Folded { first: Scalar { bits: ZERO_BITS }, second: Scalar { bits: PI_BITS } }
    } else {
        let low = Scalar { bits: NEG_ONE_BITS };
        let high = Scalar { bits: ONE_BITS };
        Triangle::Open {
            interior: cos_interior.clamp(low, high),
            offset: cos_offset.clamp(low, high),
        }
    }
}

} // verus!
