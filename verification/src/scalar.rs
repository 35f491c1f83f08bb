use vstd::prelude::*;
use rustc_apfloat::Float;
use rustc_apfloat::Round;
use rustc_apfloat::ieee::Double;

verus! {

/// Bit pattern of IEEE-754 double-precision +0.0.
pub const POS_ZERO: u64 = 0x0000_0000_0000_0000;

/// Bit pattern of IEEE-754 double-precision -0.0 (only the sign bit set).
pub const NEG_ZERO: u64 = 0x8000_0000_0000_0000;

/// Bit pattern of IEEE-754 double-precision 1.0.
pub const ONE: u64 = 0x3FF0_0000_0000_0000;

/// The exponent field of an IEEE-754 double (bits 52 to 62).
pub const EXPONENT_MASK: u64 = 0x7FF0_0000_0000_0000;

/// The fraction field of an IEEE-754 double (bits 0 to 51).
pub const FRACTION_MASK: u64 = 0x000F_FFFF_FFFF_FFFF;

/// An IEEE-754 double-precision scalar, carried as its 64-bit pattern.
///
/// The library never interprets the pattern as a number itself: arithmetic
/// goes through the `rustc_apfloat` and `ieee-apsqrt` crates, and the
/// results are named by the spec functions below. Equality on `Scalar` is
/// equality of bit patterns (so `-0.0` and `+0.0` differ, and a NaN equals
/// itself).
#[derive(Debug, Clone, Copy, PartialEq, Eq, Structural)]
pub struct Scalar {
    pub bits: u64,
}

/// The bits of the IEEE double sum of the doubles with bits `a` and `b`,
/// rounded to nearest even.
pub uninterp spec fn sum_bits(a: u64, b: u64) -> u64;

/// The bits of the IEEE double difference of the doubles with bits `a` and
/// `b`, rounded to nearest even.
pub uninterp spec fn diff_bits(a: u64, b: u64) -> u64;

/// The bits of the IEEE double product of the doubles with bits `a` and `b`,
/// rounded to nearest even.
pub uninterp spec fn prod_bits(a: u64, b: u64) -> u64;

/// The bits of the IEEE double quotient of the doubles with bits `a` and
/// `b`, rounded to nearest even.
pub uninterp spec fn quot_bits(a: u64, b: u64) -> u64;

/// The bits of the IEEE double square root of the double with bits `a`,
/// rounded to nearest even.
pub uninterp spec fn root_bits(a: u64) -> u64;

/// The bits of the IEEE double nearest to the unsigned integer `n`.
pub uninterp spec fn real_bits(n: u64) -> u64;

/// Relies on rustc_apfloat's IEEE double addition (Float::add_r, round to
/// nearest even): the result depends on the two bit patterns alone; the
/// sum of two positive zeros is positive zero.
#[verifier::external_body]
fn exec_sum_bits(a: u64, b: u64) -> (r: u64)
    ensures
        r == sum_bits(a, b),
        a == POS_ZERO && b == POS_ZERO ==> r == POS_ZERO,
{
    let x = Double::from_bits(a as u128);
    let y = Double::from_bits(b as u128);
    x.add_r(y, Round::NearestTiesToEven).value.to_bits() as u64
}

/// Relies on rustc_apfloat's IEEE double subtraction (Float::sub_r, round
/// to nearest even): the result depends on the two bit patterns alone.
#[verifier::external_body]
fn exec_diff_bits(a: u64, b: u64) -> (r: u64)
    ensures
        r == diff_bits(a, b),
{
    let x = Double::from_bits(a as u128);
    let y = Double::from_bits(b as u128);
    x.sub_r(y, Round::NearestTiesToEven).value.to_bits() as u64
}

/// Relies on rustc_apfloat's IEEE double multiplication (Float::mul_r,
/// round to nearest even): the result depends on the two bit patterns
/// alone; the product of a zero with itself is positive zero.
#[verifier::external_body]
fn exec_prod_bits(a: u64, b: u64) -> (r: u64)
    ensures
        r == prod_bits(a, b),
        (a == POS_ZERO || a == NEG_ZERO) && b == a ==> r == POS_ZERO,
{
    let x = Double::from_bits(a as u128);
    let y = Double::from_bits(b as u128);
    x.mul_r(y, Round::NearestTiesToEven).value.to_bits() as u64
}

/// Relies on rustc_apfloat's IEEE double division (Float::div_r, round to
/// nearest even): the result depends on the two bit patterns alone.
#[verifier::external_body]
fn exec_quot_bits(a: u64, b: u64) -> (r: u64)
    ensures
        r == quot_bits(a, b),
{
    let x = Double::from_bits(a as u128);
    let y = Double::from_bits(b as u128);
    x.div_r(y, Round::NearestTiesToEven).value.to_bits() as u64
}

/// Relies on ieee_apsqrt::sqrt_accurate (correctly rounded square root of
/// an IEEE double bit pattern, round to nearest even): the result depends
/// on the bit pattern alone; the square root of positive zero is positive
/// zero. Zeros, infinity, NaNs and negative inputs are answered directly,
/// and the Newton iteration converges for every positive finite double.
#[verifier::external_body]
fn exec_root_bits(a: u64) -> (r: u64)
    ensures
        r == root_bits(a),
        a == POS_ZERO ==> r == POS_ZERO,
{
    ieee_apsqrt::sqrt_accurate(a, Round::NearestTiesToEven).0.value
}

/// Relies on rustc_apfloat's unsigned-integer-to-IEEE-double conversion
/// (Float::from_u128_r, round to nearest even): the result depends on the
/// integer alone.
#[verifier::external_body]
fn exec_real_bits(n: u64) -> (r: u64)
    ensures
        r == real_bits(n),
{
    Double::from_u128_r(n as u128, Round::NearestTiesToEven).value.to_bits() as u64
}

/// The scalar whose bits are the IEEE sum of `a` and `b`.
pub open spec fn spec_sum(a: Scalar, b: Scalar) -> Scalar {
    Scalar { bits: sum_bits(a.bits, b.bits) }
}

/// The scalar whose bits are the IEEE difference of `a` and `b`.
pub open spec fn spec_diff(a: Scalar, b: Scalar) -> Scalar {
    Scalar { bits: diff_bits(a.bits, b.bits) }
}

/// The scalar whose bits are the IEEE product of `a` and `b`.
pub open spec fn spec_prod(a: Scalar, b: Scalar) -> Scalar {
    Scalar { bits: prod_bits(a.bits, b.bits) }
}

/// The scalar whose bits are the IEEE quotient of `a` and `b`.
pub open spec fn spec_quot(a: Scalar, b: Scalar) -> Scalar {
    Scalar { bits: quot_bits(a.bits, b.bits) }
}

/// The scalar whose bits are the IEEE square root of `a`.
pub open spec fn spec_root(a: Scalar) -> Scalar {
    Scalar { bits: root_bits(a.bits) }
}

/// IEEE negation flips exactly the sign bit.
pub open spec fn spec_neg(a: Scalar) -> Scalar {
    Scalar { bits: a.bits ^ NEG_ZERO }
}

/// The pattern is one of the two IEEE zeros, so the double it denotes
/// compares equal to 0.0.
pub open spec fn spec_is_zero(a: Scalar) -> bool {
    a.bits == POS_ZERO || a.bits == NEG_ZERO
}

/// The pattern has the NaN shape: exponent all ones and a non-zero
/// fraction.
pub open spec fn spec_is_nan(a: Scalar) -> bool {
    a.bits & EXPONENT_MASK == EXPONENT_MASK && a.bits & FRACTION_MASK != 0
}

/// The double denoted by the pattern compares strictly greater than 0.0:
/// the sign bit is clear, the value is not +0.0 and it is not a NaN.
pub open spec fn spec_gt_zero(a: Scalar) -> bool {
    a.bits & NEG_ZERO == 0 && a.bits != POS_ZERO && !spec_is_nan(a)
}

impl Scalar {
    /// The scalar with the given IEEE-754 double bit pattern.
    pub fn from_bits(bits: u64) -> (r: Scalar)
        ensures
            r.bits == bits,
    {
        Scalar { bits }
    }

    /// The bit pattern of this scalar.
    pub fn bits(&self) -> (r: u64)
        ensures
            r == self.bits,
    {
        self.bits
    }

    /// The scalar +0.0.
    pub fn zero() -> (r: Scalar)
        ensures
            r.bits == POS_ZERO,
    {
        Scalar { bits: POS_ZERO }
    }

    /// The scalar 1.0.
    pub fn one() -> (r: Scalar)
        ensures
            r.bits == ONE,
    {
        Scalar { bits: ONE }
    }

    /// The IEEE sum `self + other`.
    pub fn add(&self, other: &Scalar) -> (r: Scalar)
        ensures
            r == spec_sum(*self, *other),
            self.bits == POS_ZERO && other.bits == POS_ZERO ==> r.bits == POS_ZERO,
    {
        Scalar { bits: exec_sum_bits(self.bits, other.bits) }
    }

    /// The IEEE difference `self - other`.
    pub fn sub(&self, other: &Scalar) -> (r: Scalar)
        ensures
            r == spec_diff(*self, *other),
    {
        Scalar { bits: exec_diff_bits(self.bits, other.bits) }
    }

    /// The IEEE product `self * other`.
    pub fn mul(&self, other: &Scalar) -> (r: Scalar)
        ensures
            r == spec_prod(*self, *other),
            spec_is_zero(*self) && *other == *self ==> r.bits == POS_ZERO,
    {
        Scalar { bits: exec_prod_bits(self.bits, other.bits) }
    }

    /// The IEEE quotient `self / other`.
    pub fn div(&self, other: &Scalar) -> (r: Scalar)
        ensures
            r == spec_quot(*self, *other),
    {
        Scalar { bits: exec_quot_bits(self.bits, other.bits) }
    }

    /// The IEEE square root of `self`.
    pub fn sqrt(&self) -> (r: Scalar)
        ensures
            r == spec_root(*self),
            self.bits == POS_ZERO ==> r.bits == POS_ZERO,
    {
        Scalar { bits: exec_root_bits(self.bits) }
    }

    /// The IEEE negation `-self`: the sign bit is flipped, nothing else.
    pub fn neg(&self) -> (r: Scalar)
        ensures
            r == spec_neg(*self),
    {
        Scalar { bits: self.bits ^ NEG_ZERO }
    }

    /// The double nearest to the unsigned integer `n`.
    pub fn from_count(n: u64) -> (r: Scalar)
        ensures
            r.bits == real_bits(n),
    {
        Scalar { bits: exec_real_bits(n) }
    }

    /// Whether this scalar is one of the two IEEE zeros.
    pub fn is_zero(&self) -> (r: bool)
        ensures
            r == spec_is_zero(*self),
    {
        self.bits == POS_ZERO || self.bits == NEG_ZERO
    }

    /// Whether the double denoted by this pattern compares strictly
    /// greater than 0.0.
    pub fn gt_zero(&self) -> (r: bool)
        ensures
            r == spec_gt_zero(*self),
    {
        self.bits & NEG_ZERO == 0 && self.bits != POS_ZERO && !(
            self.bits & EXPONENT_MASK == EXPONENT_MASK && self.bits & FRACTION_MASK != 0
        )
    }
}

} // verus!
