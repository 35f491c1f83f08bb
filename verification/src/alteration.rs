use vstd::prelude::*;
use crate::errors::Error;
use crate::scalar::{Scalar, spec_is_zero, POS_ZERO};
use crate::vector::{Vector, Vertex, spec_vscaled, spec_transform};
use crate::matrix::{
    Matrix, MatrixType, spec_scale, spec_translate, spec_rotate,
};
use crate::angle::{Angle, Rotation};

verus! {

/// A parametrized transform: an operation kind, a direction vector, and a
/// scalar magnitude. The magnitude is the mutable knob: the matrix is
/// derived on demand from the direction scaled by the magnitude, so the
/// same alteration can be re-applied with different parameter values
/// without rebuilding the selection wiring.
#[derive(Debug, Clone, Copy, PartialEq, Eq, Structural)]
pub struct Alteration {
    pub magnitude: Scalar,
    pub dimension: Vector,
    pub operation: MatrixType,
}

/// The rotation whose three angles are all zero.
pub open spec fn spec_zero_rotation() -> Rotation {
    Rotation {
        x: Angle { sin: Scalar { bits: POS_ZERO }, cos: Scalar { bits: crate::scalar::ONE } },
        y: Angle { sin: Scalar { bits: POS_ZERO }, cos: Scalar { bits: crate::scalar::ONE } },
        z: Angle { sin: Scalar { bits: POS_ZERO }, cos: Scalar { bits: crate::scalar::ONE } },
    }
}

/// The matrix an alteration derives: the direction scaled componentwise
/// by the magnitude, fed to the constructor of the matching kind. A
/// rotation matrix needs the sines and cosines of the scaled angles,
/// which only the caller can evaluate, so they arrive as `rot`; for the
/// other two kinds `rot` is ignored.
pub open spec fn spec_alteration_matrix(a: Alteration, rot: Rotation) -> Matrix {
    let d = spec_vscaled(a.dimension, a.magnitude);
    match a.operation {
        MatrixType::Scale => spec_scale(d.x, d.y, d.z),
        MatrixType::Translate => spec_translate(d.x, d.y, d.z),
        MatrixType::Rotate => spec_rotate(rot.x, rot.y, rot.z),
    }
}

impl Alteration {
    /// An alteration of the given kind with magnitude +0.0 and a zero
    /// direction; parametrize it with the builder methods.
    pub fn new(operation: MatrixType) -> (r: Alteration)
        ensures
            r.operation == operation,
            r.magnitude.bits == POS_ZERO,
            r.dimension.x.bits == POS_ZERO,
            r.dimension.y.bits == POS_ZERO,
            r.dimension.z.bits == POS_ZERO,
    {
        Alteration {
            magnitude: Scalar::zero(),
            dimension: Vector::default(),
            operation,
        }
    }

    /// The same alteration with the given magnitude.
    pub fn with_magnitude(self, value: Scalar) -> (r: Alteration)
        ensures
            r == (Alteration { magnitude: value, ..self }),
    {
        Alteration { magnitude: value, ..self }
    }

    /// The same alteration with the given direction.
    pub fn with_dimension(self, value: Vector) -> (r: Alteration)
        ensures
            r == (Alteration { dimension: value, ..self }),
    {
        Alteration { dimension: value, ..self }
    }

    /// Checks the build-time rule: a scale alteration with magnitude zero
    /// would collapse the selected vertices onto the origin, and is
    /// rejected with the fixed-attribute error. Every other alteration is
    /// handed back unchanged.
    pub fn build(self) -> (r: Result<Alteration, Error>)
        ensures
            r is Ok <==> !(self.operation == MatrixType::Scale && spec_is_zero(self.magnitude)),
            r is Ok ==> r->Ok_0 == self,
            r is Err ==> r->Err_0 == Error::FixedAttribute,
    {
        let zero = self.magnitude.is_zero();
        match self.operation {
            MatrixType::Scale => {
                if zero {
                    Err(Error::FixedAttribute)
                } else {
                    Ok(self)
                }
            },
            _ => Ok(self),
        }
    }

    /// Replaces the magnitude knob in place.
    pub fn update(&mut self, value: Scalar)
        ensures
            *final(self) == (Alteration { magnitude: value, ..*old(self) }),
    {
        self.magnitude = value;
    }

    /// Replaces the direction in place.
    pub fn update_dimension(&mut self, value: Vector)
        ensures
            *final(self) == (Alteration { dimension: value, ..*old(self) }),
    {
        self.dimension = value;
    }

    /// The direction scaled componentwise by the magnitude: the values
    /// the derived matrix is built from. For a rotation these are the
    /// three angles in radians whose sines and cosines
    /// [`Alteration::matrix_rotated`] expects.
    pub fn scaled_dimension(&self) -> (r: Vector)
        ensures
            r == spec_vscaled(self.dimension, self.magnitude),
    {
        self.dimension.scaled(&self.magnitude)
    }

    /// The derived matrix of a scale or translate alteration.
    pub fn matrix(&self) -> (r: Matrix)
        requires
            self.operation != MatrixType::Rotate,
        ensures
            r == spec_alteration_matrix(*self, spec_zero_rotation()),
    {
        let d = self.scaled_dimension();
        match self.operation {
            MatrixType::Scale => Matrix::scale(d.x, d.y, d.z),
            _ => Matrix::translate(d.x, d.y, d.z),
        }
    }

    /// The derived matrix of any alteration. For a rotation, `rot` must
    /// hold the sines and cosines of the scaled direction's three
    /// components (see [`Alteration::scaled_dimension`]); for the other
    /// kinds it is ignored.
    pub fn matrix_rotated(&self, rot: &Rotation) -> (r: Matrix)
        ensures
            r == spec_alteration_matrix(*self, *rot),
    {
        let d = self.scaled_dimension();
        match self.operation {
            MatrixType::Scale => Matrix::scale(d.x, d.y, d.z),
            MatrixType::Translate => Matrix::translate(d.x, d.y, d.z),
            MatrixType::Rotate => Matrix::rotate(&rot.x, &rot.y, &rot.z),
        }
    }

    /// Applies the derived matrix of a scale or translate alteration to
    /// every vertex of the list, in place.
    pub fn apply(&self, vertices: &mut Vec<Vertex>)
        requires
            self.operation != MatrixType::Rotate,
        ensures
            final(vertices)@ == old(vertices)@.map_values(
                |v: Vertex| spec_transform(v, spec_alteration_matrix(*self, spec_zero_rotation())),
            ),
    {
        let matrix = self.matrix();
        apply_matrix_to_all(&matrix, vertices);
    }

    /// Applies the derived matrix to every vertex of the list, in place.
    /// For a rotation, `rot` must hold the sines and cosines of the
    /// scaled direction's components.
    pub fn apply_rotated(&self, rot: &Rotation, vertices: &mut Vec<Vertex>)
        ensures
            final(vertices)@ == old(vertices)@.map_values(
                |v: Vertex| spec_transform(v, spec_alteration_matrix(*self, *rot)),
            ),
    {
        let matrix = self.matrix_rotated(rot);
        apply_matrix_to_all(&matrix, vertices);
    }
}

/// Transforms every vertex of the list by `m`, in place.
fn apply_matrix_to_all(m: &Matrix, vertices: &mut Vec<Vertex>)
    ensures
        final(vertices)@ == old(vertices)@.map_values(|v: Vertex| spec_transform(v, *m)),
{
    let mut k: usize = 0;
    while k < vertices.len()
        invariant
            k <= vertices@.len(),
            vertices@.len() == old(vertices)@.len(),
            forall|j: int| 0 <= j < k ==> #[trigger] vertices@[j] == spec_transform(
                old(vertices)@[j],
                *m,
            ),
            forall|j: int| k <= j < vertices@.len() ==> #[trigger] vertices@[j] == old(
                vertices,
            )@[j],
        decreases vertices@.len() - k,
    {
        vertices[k].transform(m);
        k = k + 1;
    }
    proof {
        assert(vertices@ =~= old(vertices)@.map_values(|v: Vertex| spec_transform(v, *m)));
    }
}

} // verus!
