//! Single-precision numbers, held by the bits of their encoding.
//!
//! A [`Scalar`] carries an IEEE 754 binary32 value as the `u32` of its encoding. Nothing here
//! does arithmetic on such a value. What is offered is what can be read off the bits alone: the
//! order of two values, the absolute value, and clamping to a band. The order is stated over
//! [`Scalar::rank`], an integer that is read off the encoding at once, and
//! [`Scalar::lemma_rank_orders_as_value`] shows that it is the order of the numbers that the
//! encodings stand for.

use vstd::prelude::*;
use vstd::arithmetic::power2::{
    lemma2_to64, lemma_pow2_adds, lemma_pow2_pos, lemma_pow2_strictly_increases, lemma_pow2_unfold,
    pow2,
};
use vstd::std_specs::cmp::PartialEqSpecImpl;

verus! {

/// The encoding of zero with the sign bit clear.
pub const ZERO_BITS: u32 = 0;

/// The encoding of one.
pub const ONE_BITS: u32 = 0x3f80_0000;

/// The encoding of minus one.
pub const NEG_ONE_BITS: u32 = 0xbf80_0000;

/// The encoding of the single-precision number nearest to pi.
pub const PI_BITS: u32 = 0x4049_0fdb;

/// The sign bit of an encoding.
pub const SIGN_BIT: u32 = 0x8000_0000;

/// The encoding of positive infinity: every magnitude above it is a NaN.
pub const INFINITY_BITS: u32 = 0x7f80_0000;

/// The lowest bit of the exponent field: the fraction field lies below it.
pub const EXPONENT_UNIT: u32 = 0x0080_0000;

/// A single-precision number in the IEEE 754 binary32 format, held by the 32 bits of its
/// encoding: the sign in the highest bit, eight bits of exponent below it, and 23 bits of
/// fraction below those.
#[derive(Clone, Copy, Debug)]
pub struct Scalar {
    pub bits: u32,
}

impl Scalar {
    /// Whether the sign bit is set. It may be set on a zero and on a NaN too.
    pub open spec fn sign_negative(self) -> bool {
        self.bits >= SIGN_BIT
    }

    /// The encoding with the sign bit cleared.
    pub open spec fn magnitude(self) -> nat {
        if self.sign_negative() {
            (self.bits - SIGN_BIT) as nat
        } else {
            self.bits as nat
        }
    }

    /// The exponent field of the encoding.
    pub open spec fn exponent(self) -> nat {
        self.magnitude() / (EXPONENT_UNIT as nat)
    }

    /// The fraction field of the encoding.
    pub open spec fn fraction(self) -> nat {
        self.magnitude() % (EXPONENT_UNIT as nat)
    }

    /// Whether the encoding is a NaN: the exponent field is full and the fraction is not zero,
    /// and the encoding stands for no number.
    pub open spec fn spec_is_nan(self) -> bool {
        self.magnitude() > INFINITY_BITS
    }

    /// The size of the number, sign aside, counted in units of two to the power of -149.
    ///
    /// That unit is the smallest positive number of the format, and every finite number is a
    /// whole multiple of it. With an exponent field of zero the fraction is the count itself.
    /// Otherwise the fraction gets its leading one and is doubled once for each step of the
    /// exponent above one. Infinity, with a full exponent field and no fraction, comes out as
    /// two to the power of 277, above every finite number.
    pub open spec fn size(self) -> nat {
        if self.exponent() == 0 {
            self.fraction()
        } else {
            (EXPONENT_UNIT + self.fraction()) as nat * pow2((self.exponent() - 1) as nat)
        }
    }

    /// The number that the encoding stands for, counted in units of two to the power of -149.
    /// It says nothing of a NaN.
    pub open spec fn value(self) -> int {
        if self.sign_negative() {
            -(self.size() as int)
        } else {
            self.size() as int
        }
    }

    /// The place of the number among all numbers: the magnitude of the encoding, taken below
    /// zero where the sign bit is set. Of two encodings that are not NaN, the one of lower
    /// rank stands for the smaller number, and encodings of the same rank stand for the same
    /// number. The two zeros share the rank 0.
    pub open spec fn rank(self) -> int {
        if self.sign_negative() {
            -(self.magnitude() as int)
        } else {
            self.magnitude() as int
        }
    }

    /// `self < other` as numbers: false whenever either is a NaN.
    pub open spec fn spec_lt(self, other: Scalar) -> bool {
        !self.spec_is_nan() && !other.spec_is_nan() && self.rank() < other.rank()
    }

    /// `self <= other` as numbers: false whenever either is a NaN.
    pub open spec fn spec_le(self, other: Scalar) -> bool {
        !self.spec_is_nan() && !other.spec_is_nan() && self.rank() <= other.rank()
    }

    /// `self > other` as numbers: false whenever either is a NaN.
    pub open spec fn spec_gt(self, other: Scalar) -> bool {
        other.spec_lt(self)
    }

    /// `self == other` as numbers: false whenever either is a NaN, true of the two zeros.
    pub open spec fn same_number(self, other: Scalar) -> bool {
        !self.spec_is_nan() && !other.spec_is_nan() && self.rank() == other.rank()
    }

    /// The number without its sign.
    pub open spec fn spec_abs(self) -> Scalar {
        Scalar { bits: self.magnitude() as u32 }
    }

    /// The number brought into the band from `min` to `max`: `min` where it lies below the
    /// band, `max` where it lies above, and itself otherwise. A NaN lies neither below nor
    /// above anything and so stays as it is.
    pub open spec fn spec_clamp(self, min: Scalar, max: Scalar) -> Scalar {
        if self.spec_lt(min) {
            min
        } else if self.spec_gt(max) {
            max
        } else {
            self
        }
    }

    /// Encodings are ordered as the sizes of their numbers are: of two encodings, the one
    /// with the smaller magnitude stands for the number nearer to zero, and only encodings
    /// with the same magnitude stand for numbers of the same size.
    pub proof fn lemma_size_orders_as_magnitude(self, other: Scalar)
        ensures
            self.magnitude() < other.magnitude() <==> self.size() < other.size(),
            self.magnitude() == other.magnitude() <==> self.size() == other.size(),
    {
        if self.magnitude() < other.magnitude() {
            self.lemma_smaller_magnitude_smaller_size(other);
        } else if other.magnitude() < self.magnitude() {
            other.lemma_smaller_magnitude_smaller_size(self);
        }
    }

    /// The order of the ranks is the order of the numbers: the lower rank goes with the
    /// smaller value, and the same rank with the same value.
    pub proof fn lemma_rank_orders_as_value(self, other: Scalar)
        ensures
            self.rank() < other.rank() <==> self.value() < other.value(),
            self.rank() == other.rank() <==> self.value() == other.value(),
    {
        let zero = Scalar { bits: ZERO_BITS };
        self.lemma_size_orders_as_magnitude(other);
        self.lemma_size_orders_as_magnitude(zero);
        other.lemma_size_orders_as_magnitude(zero);
    }

    proof fn lemma_smaller_magnitude_smaller_size(self, other: Scalar)
        requires
            self.magnitude() < other.magnitude(),
        ensures
            self.size() < other.size(),
    {
        let unit = EXPONENT_UNIT as int;
        let e1 = self.exponent();
        let f1 = self.fraction() as int;
        let e2 = other.exponent();
        let f2 = other.fraction() as int;
        assert(e1 <= e2);
        if e1 == e2 {
            assert(f1 < f2);
            if e1 > 0 {
                let scale = pow2((e1 - 1) as nat) as int;
                lemma_pow2_pos((e1 - 1) as nat);
                assert((unit + f1) * scale < (unit + f2) * scale) by (nonlinear_arith)
                    requires
                        f1 < f2,
                        scale > 0,
                ;
            }
        } else {
            let high = pow2((e2 - 1) as nat) as int;
            lemma_pow2_pos((e2 - 1) as nat);
            assert(unit * 1 <= unit * high <= (unit + f2) * high) by (nonlinear_arith)
                requires
                    unit > 0,
                    f2 >= 0,
                    high >= 1,
            ;
            if e1 > 0 {
                let low = pow2((e1 - 1) as nat) as int;
                lemma_pow2_pos((e1 - 1) as nat);
                lemma_pow2_unfold(e1);
                if e1 < e2 - 1 {
                    lemma_pow2_strictly_increases(e1, (e2 - 1) as nat);
                }
                assert(2 * low <= high);
                assert((unit + f1) * low < unit * (2 * low) <= unit * high) by (nonlinear_arith)
                    requires
                        0 <= f1 < unit,
                        low > 0,
                        2 * low <= high,
                ;
            }
        }
    }

    /// The encoding with the sign bit cleared, as a machine integer.
    fn magnitude_bits(self) -> (m: u32)
        ensures
            m == self.magnitude(),
            m < SIGN_BIT,
    {
        if self.bits >= SIGN_BIT {
            self.bits - SIGN_BIT
        } else {
            self.bits
        }
    }

    /// Whether the encoding is a NaN.
    #[verifier::when_used_as_spec(spec_is_nan)]
    pub fn is_nan(self) -> (r: bool)
        ensures
            r == self.spec_is_nan(),
    {
        self.magnitude_bits() > INFINITY_BITS
    }

    /// `self < other` as numbers.
    #[verifier::when_used_as_spec(spec_lt)]
    pub fn lt(self, other: Scalar) -> (r: bool)
        ensures
            r == self.spec_lt(other),
    {
        if self.is_nan() || other.is_nan() {
            return false;
        }
        let a: u32 = self.magnitude_bits();
        let b: u32 = other.magnitude_bits();
        if self.bits >= SIGN_BIT {
            if other.bits >= SIGN_BIT {
                a > b
            } else {
                a > 0 || b > 0
            }
        } else {
            other.bits < SIGN_BIT && a < b
        }
    }

    /// `self <= other` as numbers.
    #[verifier::when_used_as_spec(spec_le)]
    pub fn le(self, other: Scalar) -> (r: bool)
        ensures
            r == self.spec_le(other),
    {
        if self.is_nan() || other.is_nan() {
            return false;
        }
        !other.lt(self)
    }

    /// `self > other` as numbers.
    #[verifier::when_used_as_spec(spec_gt)]
    pub fn gt(self, other: Scalar) -> (r: bool)
        ensures
            r == self.spec_gt(other),
    {
        other.lt(self)
    }

    /// The number without its sign. A NaN stays a NaN.
    #[verifier::when_used_as_spec(spec_abs)]
    pub fn abs(self) -> (r: Scalar)
        ensures
            r == self.spec_abs(),
            r.is_nan() == self.is_nan(),
            r.rank() == self.magnitude(),
            r.value() == self.size(),
    {
        Scalar { bits: self.magnitude_bits() }
    }

    /// The number brought into the band from `min` to `max`.
    ///
    /// Where the band is empty or one of its bounds is a NaN, the result is still one of the
    /// three: the bound that the number was found beyond first, or the number itself.
    #[verifier::when_used_as_spec(spec_clamp)]
    pub fn clamp(self, min: Scalar, max: Scalar) -> (r: Scalar)
        ensures
            r == self.spec_clamp(min, max),
            !self.is_nan() && min.le(max) ==> min.le(r) && r.le(max),
            min.le(self) && self.le(max) ==> r == self,
    {
        if self.lt(min) {
            min
        } else if self.gt(max) {
            max
        } else {
            self
        }
    }
}

/// The constants stand for the numbers that they are named after: zero, one and minus one
/// exactly, and pi to the nearest encoding, which lies between 3.1415927 and 3.1415928.
pub proof fn lemma_values_of_constants()
    ensures
        (Scalar { bits: ZERO_BITS }).value() == 0,
        (Scalar { bits: ONE_BITS }).value() == pow2(149),
        (Scalar { bits: NEG_ONE_BITS }).value() == -(pow2(149) as int),
        10_000_000 * (Scalar { bits: PI_BITS }).value() > 31_415_927 * pow2(149),
        10_000_000 * (Scalar { bits: PI_BITS }).value() < 31_415_928 * pow2(149),
        !(Scalar { bits: ZERO_BITS }).is_nan(),
        !(Scalar { bits: ONE_BITS }).is_nan(),
        !(Scalar { bits: NEG_ONE_BITS }).is_nan(),
        !(Scalar { bits: PI_BITS }).is_nan(),
{
    lemma2_to64();
    lemma_pow2_adds(23, 126);
    lemma_pow2_adds(22, 127);
    lemma_pow2_pos(127);
    let one = Scalar { bits: ONE_BITS };
    assert(one.exponent() == 127 && one.fraction() == 0);
    let neg_one = Scalar { bits: NEG_ONE_BITS };
    assert(neg_one.exponent() == 127 && neg_one.fraction() == 0);
    let pi = Scalar { bits: PI_BITS };
    assert(pi.exponent() == 128 && pi.fraction() == 0x49_0fdb);
    let scale = pow2(127) as int;
    assert(pi.value() == 13_176_795 * scale);
    assert(pow2(149) == 4_194_304 * scale);
    assert(10_000_000 * (13_176_795 * scale) > 31_415_927 * (4_194_304 * scale)) by (nonlinear_arith)
        requires
            scale > 0,
    ;
    assert(10_000_000 * (13_176_795 * scale) < 31_415_928 * (4_194_304 * scale)) by (nonlinear_arith)
        requires
            scale > 0,
    ;
}

impl PartialEq for Scalar {
    /// Equality of the numbers, not of the encodings: a NaN equals nothing, itself included,
    /// and the two zeros are equal.
    fn eq(&self, other: &Scalar) -> (r: bool) {
        if self.is_nan() || other.is_nan() {
            return false;
        }
        let a: u32 = self.magnitude_bits();
        let b: u32 = other.magnitude_bits();
        a == b && (a == 0 || (self.bits >= SIGN_BIT) == (other.bits >= SIGN_BIT))
    }
}

impl PartialEqSpecImpl for Scalar {
    open spec fn obeys_eq_spec() -> bool {
        true
    }

    open spec fn eq_spec(&self, other: &Scalar) -> bool {
        self.same_number(*other)
    }
}

} // verus!
