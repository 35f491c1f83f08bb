use vstd::prelude::*;
use crate::scalar::Scalar;
use crate::scalar::POS_ZERO;
use crate::scalar::ONE;

verus! {

/// A rotation angle, represented by the sine and cosine of its radian
/// measure.
///
/// The library reads an angle only through these two scalars, so a caller
/// that starts from a radian value evaluates the two trigonometric
/// functions itself (see the companion application crate) and hands the
/// results over as bit patterns.
#[derive(Debug, Clone, Copy, PartialEq, Eq, Structural)]
pub struct Angle {
    pub sin: Scalar,
    pub cos: Scalar,
}

impl Angle {
    /// The angle with the given sine and cosine.
    pub fn new(sin: Scalar, cos: Scalar) -> (r: Angle)
        ensures
            r.sin == sin,
            r.cos == cos,
    {
        Angle { sin, cos }
    }

    /// The zero angle: sine +0.0, cosine 1.0.
    pub fn zero() -> (r: Angle)
        ensures
            r.sin.bits == POS_ZERO,
            r.cos.bits == ONE,
    {
        Angle { sin: Scalar { bits: POS_ZERO }, cos: Scalar { bits: ONE } }
    }
}

/// One angle per axis, in the order the rotation constructors take them.
#[derive(Debug, Clone, Copy, PartialEq, Eq, Structural)]
pub struct Rotation {
    pub x: Angle,
    pub y: Angle,
    pub z: Angle,
}

impl Rotation {
    /// The rotation with the given per-axis angles.
    pub fn new(x: Angle, y: Angle, z: Angle) -> (r: Rotation)
        ensures
            r.x == x,
            r.y == y,
            r.z == z,
    {
        Rotation { x, y, z }
    }

    /// The rotation whose three angles are all zero.
    pub fn zero() -> (r: Rotation)
        ensures
            r.x.sin.bits == POS_ZERO,
            r.x.cos.bits == ONE,
            r.y.sin.bits == POS_ZERO,
            r.y.cos.bits == ONE,
            r.z.sin.bits == POS_ZERO,
            r.z.cos.bits == ONE,
    {
        Rotation { x: Angle::zero(), y: Angle::zero(), z: Angle::zero() }
    }
}

} // verus!
