use vstd::prelude::*;
use crate::scalar::{
    Scalar, spec_sum, spec_diff, spec_prod, spec_quot, spec_root, spec_gt_zero,
    spec_is_zero, POS_ZERO, ONE,
};
use crate::matrix::Matrix;
use crate::matrix::spec_dot4;
use crate::matrix::dot4;

verus! {

/// A 3D point or direction with IEEE double components, carried as bit
/// patterns.
#[derive(Debug, Clone, Copy, PartialEq, Eq, Structural)]
pub struct Vector {
    pub x: Scalar,
    pub y: Scalar,
    pub z: Scalar,
}

/// A vector used as a position.
pub type Vertex = Vector;

/// A vector used as a direction.
pub type Normal = Vertex;

/// The componentwise IEEE difference `a - b`.
pub open spec fn spec_vsub(a: Vector, b: Vector) -> Vector {
    Vector { x: spec_diff(a.x, b.x), y: spec_diff(a.y, b.y), z: spec_diff(a.z, b.z) }
}

/// The componentwise IEEE sum `a + b`.
pub open spec fn spec_vadd(a: Vector, b: Vector) -> Vector {
    Vector { x: spec_sum(a.x, b.x), y: spec_sum(a.y, b.y), z: spec_sum(a.z, b.z) }
}

/// Each component multiplied by the scalar `m`.
pub open spec fn spec_vscaled(v: Vector, m: Scalar) -> Vector {
    Vector { x: spec_prod(v.x, m), y: spec_prod(v.y, m), z: spec_prod(v.z, m) }
}

/// The Euclidean magnitude `sqrt(x*x + y*y + z*z)`, with the sum taken
/// left to right.
pub open spec fn spec_magnitude(v: Vector) -> Scalar {
    spec_root(
        spec_sum(spec_sum(spec_prod(v.x, v.x), spec_prod(v.y, v.y)), spec_prod(v.z, v.z)),
    )
}

/// The unit vector in the direction of `v` when the magnitude compares
/// greater than 0.0, and `v` unchanged otherwise (this guards the divide,
/// so normalizing a zero vector never produces a NaN).
pub open spec fn spec_normalize(v: Vector) -> Vector {
    let m = spec_magnitude(v);
    if spec_gt_zero(m) {
        Vector { x: spec_quot(v.x, m), y: spec_quot(v.y, m), z: spec_quot(v.z, m) }
    } else {
        v
    }
}

/// The homogeneous transform of `v` by `m`: the point is extended with
/// w = 1.0, the four row dot products are taken, and the first three are
/// divided by the fourth. The divide is always performed, even though
/// every matrix this library constructs has bottom row (0, 0, 0, 1): that
/// keeps the abstraction right for projective matrices.
pub open spec fn spec_transform(v: Vector, m: Matrix) -> Vector {
    let w = Scalar { bits: ONE };
    let dx = spec_dot4(m.m11, m.m12, m.m13, m.m14, v.x, v.y, v.z, w);
    let dy = spec_dot4(m.m21, m.m22, m.m23, m.m24, v.x, v.y, v.z, w);
    let dz = spec_dot4(m.m31, m.m32, m.m33, m.m34, v.x, v.y, v.z, w);
    let dw = spec_dot4(m.m41, m.m42, m.m43, m.m44, v.x, v.y, v.z, w);
    Vector { x: spec_quot(dx, dw), y: spec_quot(dy, dw), z: spec_quot(dz, dw) }
}

/// The Euclidean distance between `a` and `b`: the magnitude of their
/// difference.
pub open spec fn spec_distance(a: Vector, b: Vector) -> Scalar {
    spec_magnitude(spec_vsub(a, b))
}

impl Vector {
    /// The vector with the given components, as a tuple.
    pub fn with(v: (Scalar, Scalar, Scalar)) -> (r: Vector)
        ensures
            r == (Vector { x: v.0, y: v.1, z: v.2 }),
    {
        Vector { x: v.0, y: v.1, z: v.2 }
    }

    /// The vector with the given components.
    pub fn new(x: Scalar, y: Scalar, z: Scalar) -> (r: Vector)
        ensures
            r == (Vector { x, y, z }),
    {
        Vector { x, y, z }
    }

    /// The components, as a tuple.
    pub fn unpack(&self) -> (r: (Scalar, Scalar, Scalar))
        ensures
            r == (self.x, self.y, self.z),
    {
        (self.x, self.y, self.z)
    }

    /// The componentwise difference `self - other`.
    pub fn sub(&self, other: &Vector) -> (r: Vector)
        ensures
            r == spec_vsub(*self, *other),
    {
        Vector {
            x: self.x.sub(&other.x),
            y: self.y.sub(&other.y),
            z: self.z.sub(&other.z),
        }
    }

    /// The componentwise sum `self + other`.
    pub fn add(&self, other: &Vector) -> (r: Vector)
        ensures
            r == spec_vadd(*self, *other),
    {
        Vector {
            x: self.x.add(&other.x),
            y: self.y.add(&other.y),
            z: self.z.add(&other.z),
        }
    }

    /// Each component multiplied by `m`.
    pub fn scaled(&self, m: &Scalar) -> (r: Vector)
        ensures
            r == spec_vscaled(*self, *m),
    {
        Vector {
            x: self.x.mul(m),
            y: self.y.mul(m),
            z: self.z.mul(m),
        }
    }

    /// The Euclidean magnitude `sqrt(x*x + y*y + z*z)`. The magnitude of
    /// a vector of IEEE zeros is +0.0.
    pub fn magnitude(&self) -> (r: Scalar)
        ensures
            r == spec_magnitude(*self),
            spec_is_zero(self.x) && spec_is_zero(self.y) && spec_is_zero(self.z)
                ==> r.bits == POS_ZERO,
    {
        let v1 = self.x.mul(&self.x);
        let v2 = self.y.mul(&self.y);
        let v3 = self.z.mul(&self.z);
        v1.add(&v2).add(&v3).sqrt()
    }

    /// The unit vector in the direction of `self`, or `self` unchanged
    /// when the magnitude does not compare greater than 0.0. A vector
    /// whose components are all IEEE zeros is returned unchanged.
    pub fn normalize(&self) -> (r: Vector)
        ensures
            r == spec_normalize(*self),
            spec_is_zero(self.x) && spec_is_zero(self.y) && spec_is_zero(self.z) ==> r == *self,
    {
        let m = self.magnitude();
        if m.gt_zero() {
            Vector {
                x: self.x.div(&m),
                y: self.y.div(&m),
                z: self.z.div(&m),
            }
        } else {
            *self
        }
    }

    /// The Euclidean distance between `self` and `other`.
    pub fn distance(&self, other: &Vector) -> (r: Scalar)
        ensures
            r == spec_distance(*self, *other),
    {
        self.sub(other).magnitude()
    }

    /// Applies the homogeneous transform `m` to this point in place:
    /// row dot products with (x, y, z, 1), then the perspective divide by
    /// the fourth product.
    pub fn transform(&mut self, m: &Matrix)
        ensures
            *final(self) == spec_transform(*old(self), *m),
    {
        let w = Scalar::one();
        let dw = dot4(&m.m41, &m.m42, &m.m43, &m.m44, &self.x, &self.y, &self.z, &w);
        let dx = dot4(&m.m11, &m.m12, &m.m13, &m.m14, &self.x, &self.y, &self.z, &w);
        let dy = dot4(&m.m21, &m.m22, &m.m23, &m.m24, &self.x, &self.y, &self.z, &w);
        let dz = dot4(&m.m31, &m.m32, &m.m33, &m.m34, &self.x, &self.y, &self.z, &w);
        self.x = dx.div(&dw);
        self.y = dy.div(&dw);
        self.z = dz.div(&dw);
    }

}

impl Default for Vector {
    /// The zero vector: every component is +0.0.
    fn default() -> (r: Vector)
        ensures
            r.x.bits == POS_ZERO,
            r.y.bits == POS_ZERO,
            r.z.bits == POS_ZERO,
    {
        Vector {
            x: Scalar { bits: POS_ZERO },
            y: Scalar { bits: POS_ZERO },
            z: Scalar { bits: POS_ZERO },
        }
    }
}

} // verus!
