use vstd::prelude::*;
use crate::scalar::{Scalar, spec_sum, spec_prod, spec_neg, POS_ZERO, ONE};
use crate::angle::Angle;

verus! {

/// The four-term dot product `a1*b1 + a2*b2 + a3*b3 + a4*b4`, with the
/// products summed left to right.
pub open spec fn spec_dot4(
    a1: Scalar, a2: Scalar, a3: Scalar, a4: Scalar,
    b1: Scalar, b2: Scalar, b3: Scalar, b4: Scalar,
) -> Scalar {
    spec_sum(
        spec_sum(spec_sum(spec_prod(a1, b1), spec_prod(a2, b2)), spec_prod(a3, b3)),
        spec_prod(a4, b4),
    )
}

/// The four-term dot product, summed left to right.
pub fn dot4(
    a1: &Scalar, a2: &Scalar, a3: &Scalar, a4: &Scalar,
    b1: &Scalar, b2: &Scalar, b3: &Scalar, b4: &Scalar,
) -> (r: Scalar)
    ensures
        r == spec_dot4(*a1, *a2, *a3, *a4, *b1, *b2, *b3, *b4),
{
    a1.mul(b1).add(&a2.mul(b2)).add(&a3.mul(b3)).add(&a4.mul(b4))
}

/// A row-major 4x4 homogeneous transform with IEEE double entries.
///
/// Field `mij` is the entry in row `i`, column `j`. No bottom-row
/// invariant is enforced: every matrix this library constructs is affine,
/// but the math stays correct for projective matrices.
#[derive(Debug, Clone, Copy, PartialEq, Eq, Structural)]
pub struct Matrix {
    pub m11: Scalar, pub m12: Scalar, pub m13: Scalar, pub m14: Scalar,
    pub m21: Scalar, pub m22: Scalar, pub m23: Scalar, pub m24: Scalar,
    pub m31: Scalar, pub m32: Scalar, pub m33: Scalar, pub m34: Scalar,
    pub m41: Scalar, pub m42: Scalar, pub m43: Scalar, pub m44: Scalar,
}

/// The kind of transform an alteration performs.
#[derive(Debug, Clone, Copy, PartialEq, Eq, Structural)]
pub enum MatrixType {
    Scale,
    Rotate,
    Translate,
}

/// The diagonal scaling matrix with factors `x`, `y`, `z`.
pub open spec fn spec_scale(x: Scalar, y: Scalar, z: Scalar) -> Matrix {
    let o = Scalar { bits: POS_ZERO };
    let i = Scalar { bits: ONE };
    Matrix {
        m11: x, m12: o, m13: o, m14: o,
        m21: o, m22: y, m23: o, m24: o,
        m31: o, m32: o, m33: z, m34: o,
        m41: o, m42: o, m43: o, m44: i,
    }
}

/// The translation matrix that moves a point by `(x, y, z)`.
pub open spec fn spec_translate(x: Scalar, y: Scalar, z: Scalar) -> Matrix {
    let o = Scalar { bits: POS_ZERO };
    let i = Scalar { bits: ONE };
    Matrix {
        m11: i, m12: o, m13: o, m14: x,
        m21: o, m22: i, m23: o, m24: y,
        m31: o, m32: o, m33: i, m34: z,
        m41: o, m42: o, m43: o, m44: i,
    }
}

/// The right-handed rotation about the x axis by the angle `a`.
pub open spec fn spec_rotate_x(a: Angle) -> Matrix {
    let o = Scalar { bits: POS_ZERO };
    let i = Scalar { bits: ONE };
    Matrix {
        m11: i, m12: o, m13: o, m14: o,
        m21: o, m22: a.cos, m23: spec_neg(a.sin), m24: o,
        m31: o, m32: a.sin, m33: a.cos, m34: o,
        m41: o, m42: o, m43: o, m44: i,
    }
}

/// The right-handed rotation about the y axis by the angle `a`.
pub open spec fn spec_rotate_y(a: Angle) -> Matrix {
    let o = Scalar { bits: POS_ZERO };
    let i = Scalar { bits: ONE };
    Matrix {
        m11: a.cos, m12: o, m13: a.sin, m14: o,
        m21: o, m22: i, m23: o, m24: o,
        m31: spec_neg(a.sin), m32: o, m33: a.cos, m34: o,
        m41: o, m42: o, m43: o, m44: i,
    }
}

/// The right-handed rotation about the z axis by the angle `a`.
pub open spec fn spec_rotate_z(a: Angle) -> Matrix {
    let o = Scalar { bits: POS_ZERO };
    let i = Scalar { bits: ONE };
    Matrix {
        m11: a.cos, m12: spec_neg(a.sin), m13: o, m14: o,
        m21: a.sin, m22: a.cos, m23: o, m24: o,
        m31: o, m32: o, m33: i, m34: o,
        m41: o, m42: o, m43: o, m44: i,
    }
}

/// The standard 4x4 product `a * b`: entry (i, j) is the dot product of
/// row i of `a` with column j of `b`, each sum taken left to right.
pub open spec fn spec_mul(a: Matrix, b: Matrix) -> Matrix {
    Matrix {
        m11: spec_dot4(a.m11, a.m12, a.m13, a.m14, b.m11, b.m21, b.m31, b.m41),
        m12: spec_dot4(a.m11, a.m12, a.m13, a.m14, b.m12, b.m22, b.m32, b.m42),
        m13: spec_dot4(a.m11, a.m12, a.m13, a.m14, b.m13, b.m23, b.m33, b.m43),
        m14: spec_dot4(a.m11, a.m12, a.m13, a.m14, b.m14, b.m24, b.m34, b.m44),
        m21: spec_dot4(a.m21, a.m22, a.m23, a.m24, b.m11, b.m21, b.m31, b.m41),
        m22: spec_dot4(a.m21, a.m22, a.m23, a.m24, b.m12, b.m22, b.m32, b.m42),
        m23: spec_dot4(a.m21, a.m22, a.m23, a.m24, b.m13, b.m23, b.m33, b.m43),
        m24: spec_dot4(a.m21, a.m22, a.m23, a.m24, b.m14, b.m24, b.m34, b.m44),
        m31: spec_dot4(a.m31, a.m32, a.m33, a.m34, b.m11, b.m21, b.m31, b.m41),
        m32: spec_dot4(a.m31, a.m32, a.m33, a.m34, b.m12, b.m22, b.m32, b.m42),
        m33: spec_dot4(a.m31, a.m32, a.m33, a.m34, b.m13, b.m23, b.m33, b.m43),
        m34: spec_dot4(a.m31, a.m32, a.m33, a.m34, b.m14, b.m24, b.m34, b.m44),
        m41: spec_dot4(a.m41, a.m42, a.m43, a.m44, b.m11, b.m21, b.m31, b.m41),
        m42: spec_dot4(a.m41, a.m42, a.m43, a.m44, b.m12, b.m22, b.m32, b.m42),
        m43: spec_dot4(a.m41, a.m42, a.m43, a.m44, b.m13, b.m23, b.m33, b.m43),
        m44: spec_dot4(a.m41, a.m42, a.m43, a.m44, b.m14, b.m24, b.m34, b.m44),
    }
}

/// The combined rotation `rotate_x(x) * rotate_y(y) * rotate_z(z)`, in
/// exactly that left-to-right order.
pub open spec fn spec_rotate(x: Angle, y: Angle, z: Angle) -> Matrix {
    spec_mul(spec_mul(spec_rotate_x(x), spec_rotate_y(y)), spec_rotate_z(z))
}

impl Matrix {
    /// The matrix with the given entries, row-major.
    pub fn new(v: [Scalar; 16]) -> (r: Matrix)
        ensures
            r.m11 == v[0] && r.m12 == v[1] && r.m13 == v[2] && r.m14 == v[3],
            r.m21 == v[4] && r.m22 == v[5] && r.m23 == v[6] && r.m24 == v[7],
            r.m31 == v[8] && r.m32 == v[9] && r.m33 == v[10] && r.m34 == v[11],
            r.m41 == v[12] && r.m42 == v[13] && r.m43 == v[14] && r.m44 == v[15],
    {
        Matrix {
            m11: v[0], m12: v[1], m13: v[2], m14: v[3],
            m21: v[4], m22: v[5], m23: v[6], m24: v[7],
            m31: v[8], m32: v[9], m33: v[10], m34: v[11],
            m41: v[12], m42: v[13], m43: v[14], m44: v[15],
        }
    }

    /// The entries, row-major.
    pub fn unpack(&self) -> (r: [Scalar; 16])
        ensures
            r[0] == self.m11 && r[1] == self.m12 && r[2] == self.m13 && r[3] == self.m14,
            r[4] == self.m21 && r[5] == self.m22 && r[6] == self.m23 && r[7] == self.m24,
            r[8] == self.m31 && r[9] == self.m32 && r[10] == self.m33 && r[11] == self.m34,
            r[12] == self.m41 && r[13] == self.m42 && r[14] == self.m43 && r[15] == self.m44,
    {
        [
            self.m11, self.m12, self.m13, self.m14,
            self.m21, self.m22, self.m23, self.m24,
            self.m31, self.m32, self.m33, self.m34,
            self.m41, self.m42, self.m43, self.m44,
        ]
    }

    /// The diagonal scaling matrix with factors `x`, `y`, `z`.
    pub fn scale(x: Scalar, y: Scalar, z: Scalar) -> (r: Matrix)
        ensures
            r == spec_scale(x, y, z),
    {
        let o = Scalar::zero();
        let i = Scalar::one();
        Matrix {
            m11: x, m12: o, m13: o, m14: o,
            m21: o, m22: y, m23: o, m24: o,
            m31: o, m32: o, m33: z, m34: o,
            m41: o, m42: o, m43: o, m44: i,
        }
    }

    /// The translation matrix that moves a point by `(x, y, z)`.
    pub fn translate(x: Scalar, y: Scalar, z: Scalar) -> (r: Matrix)
        ensures
            r == spec_translate(x, y, z),
    {
        let o = Scalar::zero();
        let i = Scalar::one();
        Matrix {
            m11: i, m12: o, m13: o, m14: x,
            m21: o, m22: i, m23: o, m24: y,
            m31: o, m32: o, m33: i, m34: z,
            m41: o, m42: o, m43: o, m44: i,
        }
    }

    /// The right-handed rotation about the x axis by the angle `a`.
    pub fn rotate_x(a: &Angle) -> (r: Matrix)
        ensures
            r == spec_rotate_x(*a),
    {
        let o = Scalar::zero();
        let i = Scalar::one();
        Matrix {
            m11: i, m12: o, m13: o, m14: o,
            m21: o, m22: a.cos, m23: a.sin.neg(), m24: o,
            m31: o, m32: a.sin, m33: a.cos, m34: o,
            m41: o, m42: o, m43: o, m44: i,
        }
    }

    /// The right-handed rotation about the y axis by the angle `a`.
    pub fn rotate_y(a: &Angle) -> (r: Matrix)
        ensures
            r == spec_rotate_y(*a),
    {
        let o = Scalar::zero();
        let i = Scalar::one();
        Matrix {
            m11: a.cos, m12: o, m13: a.sin, m14: o,
            m21: o, m22: i, m23: o, m24: o,
            m31: a.sin.neg(), m32: o, m33: a.cos, m34: o,
            m41: o, m42: o, m43: o, m44: i,
        }
    }

    /// The right-handed rotation about the z axis by the angle `a`.
    pub fn rotate_z(a: &Angle) -> (r: Matrix)
        ensures
            r == spec_rotate_z(*a),
    {
        let o = Scalar::zero();
        let i = Scalar::one();
        Matrix {
            m11: a.cos, m12: a.sin.neg(), m13: o, m14: o,
            m21: a.sin, m22: a.cos, m23: o, m24: o,
            m31: o, m32: o, m33: i, m34: o,
            m41: o, m42: o, m43: o, m44: i,
        }
    }

    /// The combined rotation `rotate_x(x) * rotate_y(y) * rotate_z(z)`,
    /// composed in exactly that left-to-right order (rotations do not
    /// commute, so the order is part of the contract).
    pub fn rotate(x: &Angle, y: &Angle, z: &Angle) -> (r: Matrix)
        ensures
            r == spec_rotate(*x, *y, *z),
            r == spec_mul(spec_mul(spec_rotate_x(*x), spec_rotate_y(*y)), spec_rotate_z(*z)),
    {
        Matrix::rotate_x(x).mul(&Matrix::rotate_y(y)).mul(&Matrix::rotate_z(z))
    }

    /// The standard 4x4 matrix product `self * rhs`.
    pub fn mul(&self, rhs: &Matrix) -> (r: Matrix)
        ensures
            r == spec_mul(*self, *rhs),
    {
        Matrix {
            m11: dot4(&self.m11, &self.m12, &self.m13, &self.m14, &rhs.m11, &rhs.m21, &rhs.m31, &rhs.m41),
            m12: dot4(&self.m11, &self.m12, &self.m13, &self.m14, &rhs.m12, &rhs.m22, &rhs.m32, &rhs.m42),
            m13: dot4(&self.m11, &self.m12, &self.m13, &self.m14, &rhs.m13, &rhs.m23, &rhs.m33, &rhs.m43),
            m14: dot4(&self.m11, &self.m12, &self.m13, &self.m14, &rhs.m14, &rhs.m24, &rhs.m34, &rhs.m44),
            m21: dot4(&self.m21, &self.m22, &self.m23, &self.m24, &rhs.m11, &rhs.m21, &rhs.m31, &rhs.m41),
            m22: dot4(&self.m21, &self.m22, &self.m23, &self.m24, &rhs.m12, &rhs.m22, &rhs.m32, &rhs.m42),
            m23: dot4(&self.m21, &self.m22, &self.m23, &self.m24, &rhs.m13, &rhs.m23, &rhs.m33, &rhs.m43),
            m24: dot4(&self.m21, &self.m22, &self.m23, &self.m24, &rhs.m14, &rhs.m24, &rhs.m34, &rhs.m44),
            m31: dot4(&self.m31, &self.m32, &self.m33, &self.m34, &rhs.m11, &rhs.m21, &rhs.m31, &rhs.m41),
            m32: dot4(&self.m31, &self.m32, &self.m33, &self.m34, &rhs.m12, &rhs.m22, &rhs.m32, &rhs.m42),
            m33: dot4(&self.m31, &self.m32, &self.m33, &self.m34, &rhs.m13, &rhs.m23, &rhs.m33, &rhs.m43),
            m34: dot4(&self.m31, &self.m32, &self.m33, &self.m34, &rhs.m14, &rhs.m24, &rhs.m34, &rhs.m44),
            m41: dot4(&self.m41, &self.m42, &self.m43, &self.m44, &rhs.m11, &rhs.m21, &rhs.m31, &rhs.m41),
            m42: dot4(&self.m41, &self.m42, &self.m43, &self.m44, &rhs.m12, &rhs.m22, &rhs.m32, &rhs.m42),
            m43: dot4(&self.m41, &self.m42, &self.m43, &self.m44, &rhs.m13, &rhs.m23, &rhs.m33, &rhs.m43),
            m44: dot4(&self.m41, &self.m42, &self.m43, &self.m44, &rhs.m14, &rhs.m24, &rhs.m34, &rhs.m44),
        }
    }

    /// The scaling or translation matrix of the matching kind. Rotation
    /// matrices need the sines and cosines of their angles, which a bit
    /// pattern of the angle alone cannot supply, so they are built with
    /// [`Matrix::rotate`] instead.
    pub fn matching(v: MatrixType, x: Scalar, y: Scalar, z: Scalar) -> (r: Matrix)
        requires
            v != MatrixType::Rotate,
        ensures
            v == MatrixType::Scale ==> r == spec_scale(x, y, z),
            v == MatrixType::Translate ==> r == spec_translate(x, y, z),
    {
        match v {
            MatrixType::Scale => Matrix::scale(x, y, z),
            // excluded by the precondition
            MatrixType::Rotate => Matrix::scale(x, y, z),
            MatrixType::Translate => Matrix::translate(x, y, z),
        }
    }
}

} // verus!
