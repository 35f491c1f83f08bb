use vstd::prelude::*;
use crate::errors::Error;
use crate::scalar::Scalar;
use crate::vector::{Vector, Vertex, spec_transform};
use crate::matrix::Matrix;
use crate::face::{Face, spec_face_valid, spec_triangle};
use crate::triangle::Triangle;

verus! {

/// Whether every face of the sequence addresses a vertex array of length
/// `len`.
pub open spec fn spec_all_faces_valid(faces: Seq<Face>, len: nat) -> bool {
    forall|k: int| 0 <= k < faces.len() ==> spec_face_valid(#[trigger] faces[k], len)
}

/// An index-based triangle mesh: the geometry owns the vertex storage
/// exclusively, and faces hold indices into it.
///
/// The fields are public so that contracts can speak about them; the
/// accessor methods mirror the way the mesh is meant to be used. Mutating
/// vertex positions never changes the vertex count, so face validity is
/// unaffected by transforms.
#[derive(Debug, Clone, PartialEq, Eq)]
pub struct Geometry {
    pub vertices: Vec<Vertex>,
    pub faces: Vec<Face>,
}

impl Geometry {
    /// The geometry read from flat arrays: `values` holds vertex
    /// coordinates three at a time, `indices` holds 1-based face corners
    /// three at a time. A trailing partial group of fewer than three
    /// entries is dropped.
    pub fn make(values: Vec<Scalar>, indices: Vec<usize>) -> (r: Geometry)
        ensures
            r.vertices@.len() == values@.len() / 3,
            forall|k: int| 0 <= k < r.vertices@.len() ==> #[trigger] r.vertices@[k] == (Vector {
                x: values@[3 * k],
                y: values@[3 * k + 1],
                z: values@[3 * k + 2],
            }),
            r.faces@.len() == indices@.len() / 3,
            forall|k: int| 0 <= k < r.faces@.len() ==> #[trigger] r.faces@[k] == (Face {
                a: crate::face::spec_zero_based(indices@[3 * k]),
                b: crate::face::spec_zero_based(indices@[3 * k + 1]),
                c: crate::face::spec_zero_based(indices@[3 * k + 2]),
            }),
    {
        let mut vertices: Vec<Vertex> = Vec::new();
        let mut i: usize = 0;
        while values.len() - i >= 3
            invariant
                i <= values@.len(),
                i == vertices@.len() * 3,
                forall|k: int| 0 <= k < vertices@.len() ==> #[trigger] vertices@[k] == (Vector {
                    x: values@[3 * k],
                    y: values@[3 * k + 1],
                    z: values@[3 * k + 2],
                }),
            decreases values@.len() - i,
        {
            vertices.push(Vector { x: values[i], y: values[i + 1], z: values[i + 2] });
            i = i + 3;
        }
        proof {
            assert(vertices@.len() == values@.len() / 3);
        }

        let mut faces: Vec<Face> = Vec::new();
        let mut j: usize = 0;
        while indices.len() - j >= 3
            invariant
                j <= indices@.len(),
                j == faces@.len() * 3,
                forall|k: int| 0 <= k < faces@.len() ==> #[trigger] faces@[k] == (Face {
                    a: crate::face::spec_zero_based(indices@[3 * k]),
                    b: crate::face::spec_zero_based(indices@[3 * k + 1]),
                    c: crate::face::spec_zero_based(indices@[3 * k + 2]),
                }),
            decreases indices@.len() - j,
        {
            faces.push(Face::new(indices[j], indices[j + 1], indices[j + 2]));
            j = j + 3;
        }
        proof {
            assert(faces@.len() == indices@.len() / 3);
        }

        Geometry::new(vertices, faces)
    }

    /// The geometry with the given vertex and face lists.
    pub fn new(vertices: Vec<Vertex>, faces: Vec<Face>) -> (r: Geometry)
        ensures
            r.vertices == vertices,
            r.faces == faces,
    {
        Geometry { vertices, faces }
    }

    /// The number of faces.
    pub fn size(&self) -> (r: usize)
        ensures
            r == self.faces@.len(),
    {
        self.faces.len()
    }

    /// The triangle materialized from the `i`-th face.
    pub fn get(&self, i: usize) -> (r: Triangle)
        requires
            i < self.faces@.len(),
            spec_face_valid(self.faces@[i as int], self.vertices@.len()),
        ensures
            r == spec_triangle(self.faces@[i as int], self.vertices@),
    {
        let face = &self.faces[i];
        face.triangle(&self.vertices)
    }

    /// Checks that every face addresses the vertex array, and hands the
    /// geometry back untouched when they all do. Run this after any
    /// construction from raw data, before faces are trusted.
    pub fn validated(self) -> (r: Result<Geometry, Error>)
        ensures
            r is Ok <==> spec_all_faces_valid(self.faces@, self.vertices@.len()),
            r is Ok ==> r->Ok_0 == self,
            r is Err ==> r->Err_0 == Error::InvalidStructure,
    {
        let mut k: usize = 0;
        while k < self.faces.len()
            invariant
                k <= self.faces@.len(),
                forall|j: int| 0 <= j < k ==> spec_face_valid(
                    #[trigger] self.faces@[j],
                    self.vertices@.len(),
                ),
            decreases self.faces@.len() - k,
        {
            if !self.faces[k].is_valid(&self.vertices) {
                return Err(Error::InvalidStructure);
            }
            k = k + 1;
        }
        Ok(self)
    }

    /// The vertex list.
    pub fn vertices(&self) -> (r: &Vec<Vertex>)
        ensures
            r == self.vertices,
    {
        &self.vertices
    }

    /// Exclusive access to the vertex list; the faces are untouched.
    pub fn vertices_mut(&mut self) -> (r: &mut Vec<Vertex>)
        ensures
            *r == old(self).vertices,
            final(self).vertices == *final(r),
            final(self).faces == old(self).faces,
    {
        &mut self.vertices
    }

    /// Applies the homogeneous transform `m` to every vertex exactly
    /// once; vertices shared between faces are therefore transformed only
    /// once. The faces are untouched.
    pub fn transform(&mut self, m: &Matrix)
        ensures
            final(self).vertices@ == old(self).vertices@.map_values(
                |v: Vertex| spec_transform(v, *m),
            ),
            final(self).faces == old(self).faces,
    {
        let mut k: usize = 0;
        while k < self.vertices.len()
            invariant
                k <= self.vertices@.len(),
                self.vertices@.len() == old(self).vertices@.len(),
                self.faces == old(self).faces,
                forall|j: int| 0 <= j < k ==> #[trigger] self.vertices@[j] == spec_transform(
                    old(self).vertices@[j],
                    *m,
                ),
                forall|j: int| k <= j < self.vertices@.len() ==> #[trigger] self.vertices@[j]
                    == old(self).vertices@[j],
            decreases self.vertices@.len() - k,
        {
            self.vertices[k].transform(m);
            k = k + 1;
        }
        proof {
            assert(self.vertices@ =~= old(self).vertices@.map_values(
                |v: Vertex| spec_transform(v, *m),
            ));
        }
    }

    /// The geometry with no vertices and no faces.
    fn empty() -> (r: Geometry)
        ensures
            r.vertices@.len() == 0,
            r.faces@.len() == 0,
    {
        Geometry { vertices: Vec::new(), faces: Vec::new() }
    }

    /// The triangles of all faces, in face order.
    pub fn triangles(&self) -> (r: Vec<Triangle>)
        requires
            spec_all_faces_valid(self.faces@, self.vertices@.len()),
        ensures
            r@.len() == self.faces@.len(),
            forall|k: int| 0 <= k < r@.len() ==> #[trigger] r@[k] == spec_triangle(
                self.faces@[k],
                self.vertices@,
            ),
    {
        let mut out: Vec<Triangle> = Vec::new();
        let mut k: usize = 0;
        while k < self.faces.len()
            invariant
                k <= self.faces@.len(),
                out@.len() == k,
                spec_all_faces_valid(self.faces@, self.vertices@.len()),
                forall|j: int| 0 <= j < k ==> #[trigger] out@[j] == spec_triangle(
                    self.faces@[j],
                    self.vertices@,
                ),
            decreases self.faces@.len() - k,
        {
            out.push(self.faces[k].triangle(&self.vertices));
            k = k + 1;
        }
        out
    }
}

impl Default for Geometry {
    /// The geometry with no vertices and no faces.
    fn default() -> (r: Geometry)
        ensures
            r.vertices@.len() == 0,
            r.faces@.len() == 0,
    {
        Geometry::empty()
    }
}

} // verus!
