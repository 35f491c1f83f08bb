use vstd::prelude::*;
use crate::scalar::{spec_diff, spec_prod};
use crate::vector::{Vector, Vertex, Normal, spec_vsub, spec_normalize, spec_transform};
use crate::matrix::Matrix;
use crate::face::{Face, Index};

verus! {

/// A materialized copy of one face's three vertices, together with the
/// indices they came from. After construction a triangle is independent
/// of the geometry it was read from.
#[derive(Debug, Clone, Copy, PartialEq, Eq)]
pub struct Triangle {
    pub indices: (Index, Index, Index),
    pub p1: Vertex,
    pub p2: Vertex,
    pub p3: Vertex,
}

/// The cross product `a x b`, each component an exact left-to-right
/// difference of two IEEE products.
pub open spec fn spec_cross(a: Vector, b: Vector) -> Vector {
    Vector {
        x: spec_diff(spec_prod(a.y, b.z), spec_prod(a.z, b.y)),
        y: spec_diff(spec_prod(a.z, b.x), spec_prod(a.x, b.z)),
        z: spec_diff(spec_prod(a.x, b.y), spec_prod(a.y, b.x)),
    }
}

/// The unit normal of the triangle: the normalized cross product of its
/// two edge vectors `p2 - p1` and `p3 - p1`. The winding order `p1, p2,
/// p3` fixes the outward direction by the right-hand rule.
pub open spec fn spec_normal(t: Triangle) -> Normal {
    spec_normalize(spec_cross(spec_vsub(t.p2, t.p1), spec_vsub(t.p3, t.p1)))
}

impl Triangle {
    /// The unit normal, by the right-hand rule on the winding order.
    pub fn normal(&self) -> (r: Normal)
        ensures
            r == spec_normal(*self),
    {
        let p1 = self.p1;
        let p2 = self.p2;
        let p3 = self.p3;

        let a = p2.sub(&p1);
        let b = p3.sub(&p1);

        let x = a.y.mul(&b.z).sub(&a.z.mul(&b.y));
        let y = a.z.mul(&b.x).sub(&a.x.mul(&b.z));
        let z = a.x.mul(&b.y).sub(&a.y.mul(&b.x));

        Vector::new(x, y, z).normalize()
    }

    /// The face this triangle was materialized from: its three indices.
    pub fn as_face(self) -> (r: Face)
        ensures
            r.a == self.indices.0,
            r.b == self.indices.1,
            r.c == self.indices.2,
    {
        Face {
            a: self.indices.0,
            b: self.indices.1,
            c: self.indices.2,
        }
    }

    /// Applies the homogeneous transform `m` to all three points in
    /// place; the indices are untouched.
    pub fn transform(&mut self, m: &Matrix)
        ensures
            final(self).p1 == spec_transform(old(self).p1, *m),
            final(self).p2 == spec_transform(old(self).p2, *m),
            final(self).p3 == spec_transform(old(self).p3, *m),
            final(self).indices == old(self).indices,
    {
        self.p1.transform(m);
        self.p2.transform(m);
        self.p3.transform(m);
    }
}

} // verus!
