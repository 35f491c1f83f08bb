use vstd::prelude::*;
use crate::errors::Error;
use crate::scalar::{Scalar, spec_quot, real_bits};
use crate::vector::{Vector, Vertex, spec_vadd, spec_transform};
use crate::matrix::Matrix;
use crate::alteration::{Alteration, spec_alteration_matrix, spec_zero_rotation};
use crate::angle::Rotation;
use crate::face::Index;
use crate::matrix::MatrixType;

verus! {

/// An addressing strategy over an ordered vertex list: a list of specific
/// indices (duplicates permitted, order significant), a half-open
/// contiguous range, or the whole list. A selection is stateless and owns
/// no vertex data.
#[derive(Debug, Clone, PartialEq, Eq)]
pub enum Selection {
    Specific(Vec<Index>),
    Range(Index, Index),
    All,
}

/// Whether the selection addresses only positions of a list of length
/// `len`.
pub open spec fn spec_sel_valid(s: Selection, len: nat) -> bool {
    match s {
        Selection::Specific(idx) => forall|k: int|
            0 <= k < idx@.len() ==> #[trigger] idx@[k] < len,
        Selection::Range(lo, hi) => lo <= hi && hi <= len,
        Selection::All => true,
    }
}

/// How many positions the selection addresses in a list of length `len`
/// (occurrences, for specific indices: a duplicated index counts twice).
pub open spec fn spec_sel_count(s: Selection, len: nat) -> nat {
    match s {
        Selection::Specific(idx) => idx@.len(),
        Selection::Range(lo, hi) => if lo <= hi {
            (hi - lo) as nat
        } else {
            0
        },
        Selection::All => len,
    }
}

/// The addressed elements, in selection order: for specific indices the
/// elements at those indices in the listed order, for a range the slice,
/// for all the whole list.
pub open spec fn spec_take(s: Selection, vs: Seq<Vertex>) -> Seq<Vertex> {
    match s {
        Selection::Specific(idx) => idx@.map_values(|i: Index| vs[i as int]),
        Selection::Range(lo, hi) => vs.subrange(lo as int, hi as int),
        Selection::All => vs,
    }
}

/// Writes `src[k]` into position `idx[k]` of `dst` for each `k` in
/// order, so a later write to a duplicated index wins.
pub open spec fn spec_scatter(idx: Seq<Index>, src: Seq<Vertex>, dst: Seq<Vertex>) -> Seq<Vertex>
    decreases idx.len(),
{
    if idx.len() == 0 {
        dst
    } else {
        spec_scatter(idx.drop_last(), src.drop_last(), dst).update(
            idx.last() as int,
            src.last(),
        )
    }
}

/// The list `dst` with the addressed positions replaced by `src`,
/// positionally in selection order.
pub open spec fn spec_give(s: Selection, src: Seq<Vertex>, dst: Seq<Vertex>) -> Seq<Vertex> {
    match s {
        Selection::Specific(idx) => spec_scatter(idx@, src, dst),
        Selection::Range(lo, hi) => dst.subrange(0, lo as int) + src + dst.subrange(
            hi as int,
            dst.len() as int,
        ),
        Selection::All => src,
    }
}

/// Transforms the addressed positions of `vs` by `m`, one occurrence at
/// a time in selection order (a duplicated specific index is transformed
/// once per occurrence).
pub open spec fn spec_apply_indices(idx: Seq<Index>, m: Matrix, vs: Seq<Vertex>) -> Seq<Vertex>
    decreases idx.len(),
{
    if idx.len() == 0 {
        vs
    } else {
        let prev = spec_apply_indices(idx.drop_last(), m, vs);
        prev.update(idx.last() as int, spec_transform(prev[idx.last() as int], m))
    }
}

/// The list with the addressed positions transformed by `m`.
pub open spec fn spec_apply(s: Selection, m: Matrix, vs: Seq<Vertex>) -> Seq<Vertex> {
    match s {
        Selection::Specific(idx) => spec_apply_indices(idx@, m, vs),
        Selection::Range(lo, hi) => vs.subrange(0, lo as int) + vs.subrange(
            lo as int,
            hi as int,
        ).map_values(|v: Vertex| spec_transform(v, m)) + vs.subrange(hi as int, vs.len() as int),
        Selection::All => vs.map_values(|v: Vertex| spec_transform(v, m)),
    }
}

/// The componentwise sum of the vertices, taken left to right from the
/// zero vector.
pub open spec fn spec_vecsum(vs: Seq<Vertex>) -> Vector
    decreases vs.len(),
{
    if vs.len() == 0 {
        Vector {
            x: Scalar { bits: crate::scalar::POS_ZERO },
            y: Scalar { bits: crate::scalar::POS_ZERO },
            z: Scalar { bits: crate::scalar::POS_ZERO },
        }
    } else {
        spec_vadd(spec_vecsum(vs.drop_last()), vs.last())
    }
}

/// The arithmetic mean of the addressed vertices: their componentwise
/// sum divided by their number.
pub open spec fn spec_centroid(s: Selection, vs: Seq<Vertex>) -> Vector {
    let taken = spec_take(s, vs);
    let sum = spec_vecsum(taken);
    let count = Scalar { bits: real_bits(taken.len() as u64) };
    Vector {
        x: spec_quot(sum.x, count),
        y: spec_quot(sum.y, count),
        z: spec_quot(sum.z, count),
    }
}

/// Scattering back what was taken writes every addressed position its
/// own value, so the list comes back unchanged — also when indices are
/// duplicated.
proof fn lemma_scatter_take_identity(idx: Seq<Index>, vs: Seq<Vertex>)
    requires
        forall|k: int| 0 <= k < idx.len() ==> #[trigger] idx[k] < vs.len(),
    ensures
        spec_scatter(idx, idx.map_values(|i: Index| vs[i as int]), vs) == vs,
    decreases idx.len(),
{
    let src = idx.map_values(|i: Index| vs[i as int]);
    if idx.len() == 0 {
        assert(spec_scatter(idx, src, vs) == vs);
    } else {
        lemma_scatter_take_identity(idx.drop_last(), vs);
        assert(src.drop_last() =~= idx.drop_last().map_values(|i: Index| vs[i as int]));
        assert(src.last() == vs[idx.last() as int]);
        assert(spec_scatter(idx.drop_last(), src.drop_last(), vs) == vs);
        assert(spec_scatter(idx, src, vs) =~= vs);
    }
}

/// Taking a selection's elements and giving them back unmodified
/// reproduces the original vertex list exactly, for all three selection
/// variants.
pub proof fn lemma_take_give_round_trip(s: Selection, vs: Seq<Vertex>)
    requires
        spec_sel_valid(s, vs.len()),
    ensures
        spec_give(s, spec_take(s, vs), vs) == vs,
{
    match s {
        Selection::Specific(idx) => {
            lemma_scatter_take_identity(idx@, vs);
        },
        Selection::Range(lo, hi) => {
            assert(spec_give(s, spec_take(s, vs), vs) =~= vs);
        },
        Selection::All => {},
    }
}

/// Transforming the addressed positions keeps the list length.
pub proof fn lemma_apply_indices_len(idx: Seq<Index>, m: Matrix, vs: Seq<Vertex>)
    requires
        forall|k: int| 0 <= k < idx.len() ==> #[trigger] idx[k] < vs.len(),
    ensures
        spec_apply_indices(idx, m, vs).len() == vs.len(),
    decreases idx.len(),
{
    if idx.len() > 0 {
        assert(forall|k: int| 0 <= k < idx.drop_last().len() ==> #[trigger] idx.drop_last()[k]
            < vs.len());
        lemma_apply_indices_len(idx.drop_last(), m, vs);
    }
}

/// Applying a selection keeps the list length.
pub proof fn lemma_apply_len(s: Selection, m: Matrix, vs: Seq<Vertex>)
    requires
        spec_sel_valid(s, vs.len()),
    ensures
        spec_apply(s, m, vs).len() == vs.len(),
{
    match s {
        Selection::Specific(idx) => {
            lemma_apply_indices_len(idx@, m, vs);
        },
        Selection::Range(lo, hi) => {},
        Selection::All => {},
    }
}

impl Selection {
    /// The selection of the given specific indices, in the given order.
    pub fn specific(indices: Vec<Index>) -> (r: Selection)
        ensures
            r == Selection::Specific(indices),
    {
        Selection::Specific(indices)
    }

    /// The selection of the half-open range `start..end`.
    pub fn range(start: usize, end: usize) -> (r: Selection)
        ensures
            r == Selection::Range(start, end),
    {
        Selection::Range(start, end)
    }

    /// The selection of the whole list.
    pub fn all() -> (r: Selection)
        ensures
            r == Selection::All,
    {
        Selection::All
    }

    /// Whether the selection addresses only positions of the given list.
    #[verifier::loop_isolation(false)]
    pub fn valid_for(&self, vertices: &Vec<Vertex>) -> (r: bool)
        ensures
            r == spec_sel_valid(*self, vertices@.len()),
    {
        match self {
            Selection::Specific(idx) => {
                let mut k: usize = 0;
                while k < idx.len()
                    invariant
                        k <= idx@.len(),
                        forall|j: int| 0 <= j < k ==> #[trigger] idx@[j] < vertices@.len(),
                    decreases idx@.len() - k,
                {
                    if idx[k] >= vertices.len() {
                        proof {
                            assert(0 <= k < idx@.len() && idx@[k as int] >= vertices@.len());
                        }
                        return false;
                    }
                    k = k + 1;
                }
                true
            },
            Selection::Range(lo, hi) => *lo <= *hi && *hi <= vertices.len(),
            Selection::All => true,
        }
    }

    /// How many positions the selection addresses in the given list.
    pub fn count(&self, vertices: &Vec<Vertex>) -> (r: usize)
        requires
            spec_sel_valid(*self, vertices@.len()),
        ensures
            r == spec_sel_count(*self, vertices@.len()),
    {
        match self {
            Selection::Specific(idx) => idx.len(),
            Selection::Range(lo, hi) => *hi - *lo,
            Selection::All => vertices.len(),
        }
    }

    /// The addressed elements, copied out in selection order. Fails with
    /// the out-of-range error, and only then, when the selection
    /// addresses a position outside the list.
    pub fn take(&self, vertices: &Vec<Vertex>) -> (r: Result<Vec<Vertex>, Error>)
        ensures
            r is Ok <==> spec_sel_valid(*self, vertices@.len()),
            r is Ok ==> r->Ok_0@ == spec_take(*self, vertices@),
            r is Err ==> r->Err_0 == Error::OutOfRange,
    {
        if !self.valid_for(vertices) {
            return Err(Error::OutOfRange);
        }
        match self {
            Selection::Specific(idx) => {
                let mut out: Vec<Vertex> = Vec::new();
                let mut k: usize = 0;
                while k < idx.len()
                    invariant
                        k <= idx@.len(),
                        out@.len() == k,
                        forall|j: int| 0 <= j < idx@.len() ==> #[trigger] idx@[j]
                            < vertices@.len(),
                        forall|j: int| 0 <= j < k ==> #[trigger] out@[j] == vertices@[idx@[j] as int],
                    decreases idx@.len() - k,
                {
                    out.push(vertices[idx[k]]);
                    k = k + 1;
                }
                proof {
                    assert(out@ =~= spec_take(*self, vertices@));
                }
                Ok(out)
            },
            Selection::Range(lo, hi) => {
                let lo = *lo;
                let hi = *hi;
                let mut out: Vec<Vertex> = Vec::new();
                let mut k: usize = lo;
                while k < hi
                    invariant
                        lo <= k <= hi <= vertices@.len(),
                        out@.len() == k - lo,
                        forall|j: int| 0 <= j < out@.len() ==> #[trigger] out@[j] == vertices@[lo
                            + j],
                    decreases hi - k,
                {
                    out.push(vertices[k]);
                    k = k + 1;
                }
                proof {
                    assert(out@ =~= spec_take(*self, vertices@));
                }
                Ok(out)
            },
            Selection::All => Ok(vertices.clone()),
        }
    }

    /// Writes `source[k]` into the `k`-th addressed position of `dest`:
    /// matching is positional by selection order, so callers supply the
    /// replacement values in the order the indices were listed. Fails
    /// with the out-of-range error when the selection does not fit the
    /// destination, with the length-mismatch error when `source` does
    /// not hold exactly one value per addressed position, and leaves the
    /// destination untouched on either failure.
    pub fn give(&self, source: &Vec<Vertex>, dest: &mut Vec<Vertex>) -> (r: Result<(), Error>)
        ensures
            r is Ok <==> spec_sel_valid(*self, old(dest)@.len()) && source@.len()
                == spec_sel_count(*self, old(dest)@.len()),
            r is Ok ==> final(dest)@ == spec_give(*self, source@, old(dest)@),
            r is Err ==> final(dest)@ == old(dest)@,
            !spec_sel_valid(*self, old(dest)@.len()) ==> r == Result::<(), Error>::Err(
                Error::OutOfRange,
            ),
            spec_sel_valid(*self, old(dest)@.len()) && source@.len() != spec_sel_count(
                *self,
                old(dest)@.len(),
            ) ==> r == Result::<(), Error>::Err(Error::LengthMismatch),
    {
        if !self.valid_for(dest) {
            return Err(Error::OutOfRange);
        }
        if source.len() != self.count(dest) {
            return Err(Error::LengthMismatch);
        }
        match self {
            Selection::Specific(idx) => {
                let mut k: usize = 0;
                while k < idx.len()
                    invariant
                        k <= idx@.len(),
                        source@.len() == idx@.len(),
                        forall|j: int| 0 <= j < idx@.len() ==> #[trigger] idx@[j]
                            < old(dest)@.len(),
                        dest@.len() == old(dest)@.len(),
                        dest@ == spec_scatter(idx@.take(k as int), source@.take(k as int), old(dest)@),
                    decreases idx@.len() - k,
                {
                    proof {
                        lemma_scatter_len(idx@.take(k as int), source@.take(k as int), old(dest)@);
                    }
                    dest[idx[k]] = source[k];
                    proof {
                        let k1 = k + 1int;
                        assert(idx@.take(k1).drop_last() =~= idx@.take(k as int));
                        assert(source@.take(k1).drop_last() =~= source@.take(k as int));
                        assert(idx@.take(k1).last() == idx@[k as int]);
                        assert(source@.take(k1).last() == source@[k as int]);
                    }
                    k = k + 1;
                }
                proof {
                    assert(idx@.take(idx@.len() as int) =~= idx@);
                    assert(source@.take(idx@.len() as int) =~= source@);
                }
                Ok(())
            },
            Selection::Range(lo, hi) => {
                let lo = *lo;
                let hi = *hi;
                let mut k: usize = 0;
                while k < source.len()
                    invariant
                        k <= source@.len(),
                        lo <= hi <= old(dest)@.len(),
                        source@.len() == hi - lo,
                        dest@.len() == old(dest)@.len(),
                        forall|j: int| lo <= j < lo + k ==> #[trigger] dest@[j] == source@[j
                            - lo],
                        forall|j: int| 0 <= j < old(dest)@.len() && !(lo <= j < lo + k)
                            ==> #[trigger] dest@[j] == old(dest)@[j],
                    decreases source@.len() - k,
                {
                    dest[lo + k] = source[k];
                    k = k + 1;
                }
                proof {
                    assert(dest@ =~= spec_give(*self, source@, old(dest)@));
                }
                Ok(())
            },
            Selection::All => {
                let mut k: usize = 0;
                while k < source.len()
                    invariant
                        k <= source@.len(),
                        source@.len() == old(dest)@.len(),
                        dest@.len() == old(dest)@.len(),
                        forall|j: int| 0 <= j < k ==> #[trigger] dest@[j] == source@[j],
                        forall|j: int| k <= j < old(dest)@.len() ==> #[trigger] dest@[j] == old(
                            dest,
                        )@[j],
                    decreases source@.len() - k,
                {
                    dest[k] = source[k];
                    k = k + 1;
                }
                proof {
                    assert(dest@ =~= source@);
                }
                Ok(())
            },
        }
    }

    /// Transforms the addressed positions of the list by the matrix `m`,
    /// in place, one occurrence at a time in selection order. Fails with
    /// the out-of-range error, and only then, when the selection does not
    /// fit the list, and then leaves it untouched.
    pub fn transform_by(&self, m: &Matrix, vertices: &mut Vec<Vertex>) -> (r: Result<(), Error>)
        ensures
            r is Ok <==> spec_sel_valid(*self, old(vertices)@.len()),
            r is Ok ==> final(vertices)@ == spec_apply(*self, *m, old(vertices)@),
            r is Err ==> final(vertices)@ == old(vertices)@ && r->Err_0 == Error::OutOfRange,
    {
        if !self.valid_for(vertices) {
            return Err(Error::OutOfRange);
        }
        match self {
            Selection::Specific(idx) => {
                let mut k: usize = 0;
                while k < idx.len()
                    invariant
                        k <= idx@.len(),
                        forall|j: int| 0 <= j < idx@.len() ==> #[trigger] idx@[j]
                            < old(vertices)@.len(),
                        vertices@.len() == old(vertices)@.len(),
                        vertices@ == spec_apply_indices(idx@.take(k as int), *m, old(vertices)@),
                    decreases idx@.len() - k,
                {
                    proof {
                        lemma_apply_indices_len(idx@.take(k as int), *m, old(vertices)@);
                    }
                    vertices[idx[k]].transform(m);
                    proof {
                        let k1 = k + 1int;
                        assert(idx@.take(k1).drop_last() =~= idx@.take(k as int));
                        assert(idx@.take(k1).last() == idx@[k as int]);
                    }
                    k = k + 1;
                }
                proof {
                    assert(idx@.take(idx@.len() as int) =~= idx@);
                }
                Ok(())
            },
            Selection::Range(lo, hi) => {
                let lo = *lo;
                let hi = *hi;
                let mut k: usize = lo;
                while k < hi
                    invariant
                        lo <= k <= hi <= old(vertices)@.len(),
                        vertices@.len() == old(vertices)@.len(),
                        forall|j: int| lo <= j < k ==> #[trigger] vertices@[j] == spec_transform(
                            old(vertices)@[j],
                            *m,
                        ),
                        forall|j: int| 0 <= j < old(vertices)@.len() && !(lo <= j < k)
                            ==> #[trigger] vertices@[j] == old(vertices)@[j],
                    decreases hi - k,
                {
                    vertices[k].transform(m);
                    k = k + 1;
                }
                proof {
                    assert(vertices@ =~= spec_apply(*self, *m, old(vertices)@));
                }
                Ok(())
            },
            Selection::All => {
                let mut k: usize = 0;
                while k < vertices.len()
                    invariant
                        k <= vertices@.len(),
                        vertices@.len() == old(vertices)@.len(),
                        forall|j: int| 0 <= j < k ==> #[trigger] vertices@[j] == spec_transform(
                            old(vertices)@[j],
                            *m,
                        ),
                        forall|j: int| k <= j < vertices@.len() ==> #[trigger] vertices@[j] == old(
                            vertices,
                        )@[j],
                    decreases vertices@.len() - k,
                {
                    vertices[k].transform(m);
                    k = k + 1;
                }
                proof {
                    assert(vertices@ =~= spec_apply(*self, *m, old(vertices)@));
                }
                Ok(())
            },
        }
    }

    /// Applies the derived matrix of a scale or translate alteration to
    /// the addressed positions, in place.
    pub fn apply(&self, alteration: &Alteration, vertices: &mut Vec<Vertex>) -> (r: Result<
        (),
        Error,
    >)
        requires
            alteration.operation != MatrixType::Rotate,
        ensures
            r is Ok <==> spec_sel_valid(*self, old(vertices)@.len()),
            r is Ok ==> final(vertices)@ == spec_apply(
                *self,
                spec_alteration_matrix(*alteration, spec_zero_rotation()),
                old(vertices)@,
            ),
            r is Err ==> final(vertices)@ == old(vertices)@ && r->Err_0 == Error::OutOfRange,
    {
        let matrix = alteration.matrix();
        self.transform_by(&matrix, vertices)
    }

    /// Applies the derived matrix of any alteration to the addressed
    /// positions, in place. For a rotation, `rot` must hold the sines and
    /// cosines of the alteration's scaled direction.
    pub fn apply_rotated(
        &self,
        alteration: &Alteration,
        rot: &Rotation,
        vertices: &mut Vec<Vertex>,
    ) -> (r: Result<(), Error>)
        ensures
            r is Ok <==> spec_sel_valid(*self, old(vertices)@.len()),
            r is Ok ==> final(vertices)@ == spec_apply(
                *self,
                spec_alteration_matrix(*alteration, *rot),
                old(vertices)@,
            ),
            r is Err ==> final(vertices)@ == old(vertices)@ && r->Err_0 == Error::OutOfRange,
    {
        let matrix = alteration.matrix_rotated(rot);
        self.transform_by(&matrix, vertices)
    }

    /// The arithmetic mean of the addressed vertices. Fails with the
    /// out-of-range error when the selection does not fit the list, and
    /// with the empty error when it addresses no vertices at all (so the
    /// mean never divides by zero).
    pub fn centroid(&self, vertices: &Vec<Vertex>) -> (r: Result<Vertex, Error>)
        ensures
            r is Ok <==> spec_sel_valid(*self, vertices@.len()) && spec_sel_count(
                *self,
                vertices@.len(),
            ) > 0,
            r is Ok ==> r->Ok_0 == spec_centroid(*self, vertices@),
            !spec_sel_valid(*self, vertices@.len()) ==> r == Result::<Vertex, Error>::Err(
                Error::OutOfRange,
            ),
            spec_sel_valid(*self, vertices@.len()) && spec_sel_count(*self, vertices@.len()) == 0
                ==> r == Result::<Vertex, Error>::Err(Error::EmptyAttribute),
    {
        let taken = match self.take(vertices) {
            Ok(t) => t,
            Err(e) => {
                return Err(e);
            },
        };
        if taken.len() == 0 {
            return Err(Error::EmptyAttribute);
        }
        let mut sum = Vector::default();
        proof {
            assert(sum == spec_vecsum(taken@.take(0)));
        }
        let mut k: usize = 0;
        while k < taken.len()
            invariant
                k <= taken@.len(),
                sum == spec_vecsum(taken@.take(k as int)),
            decreases taken@.len() - k,
        {
            sum = sum.add(&taken[k]);
            proof {
                let k1 = k + 1int;
                assert(taken@.take(k1).drop_last() =~= taken@.take(k as int));
                assert(taken@.take(k1).last() == taken@[k as int]);
            }
            k = k + 1;
        }
        proof {
            assert(taken@.take(taken@.len() as int) =~= taken@);
        }
        let count = Scalar::from_count(taken.len() as u64);
        Ok(Vector {
            x: sum.x.div(&count),
            y: sum.y.div(&count),
            z: sum.z.div(&count),
        })
    }
}

/// Scattering keeps the destination length while every index is in
/// range.
proof fn lemma_scatter_len(idx: Seq<Index>, src: Seq<Vertex>, dst: Seq<Vertex>)
    requires
        forall|k: int| 0 <= k < idx.len() ==> #[trigger] idx[k] < dst.len(),
    ensures
        spec_scatter(idx, src, dst).len() == dst.len(),
    decreases idx.len(),
{
    if idx.len() > 0 {
        lemma_scatter_len(idx.drop_last(), src.drop_last(), dst);
    }
}

} // verus!
