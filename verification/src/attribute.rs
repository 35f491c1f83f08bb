use vstd::prelude::*;
use crate::errors::Error;
use crate::scalar::{Scalar, spec_is_zero, POS_ZERO};
use crate::vector::{Vector, Vertex};
use crate::matrix::MatrixType;
use crate::angle::Rotation;
use crate::alteration::{Alteration, spec_alteration_matrix, spec_zero_rotation};
use crate::selection::{
    Selection, spec_sel_valid, spec_sel_count, spec_apply, spec_centroid, lemma_apply_len,
};
use crate::geometry::Geometry;
use crate::face::Index;

verus! {

/// One selection paired with one alteration: the unit an attribute
/// applies.
#[derive(Debug, Clone, PartialEq, Eq)]
pub struct AttributeItem {
    pub selection: Selection,
    pub alteration: Alteration,
}

/// A named parametric dimension: an ordered list of items sharing one
/// broadcast magnitude, so a single number (say a board's length) drives
/// several vertex groups coherently, each along its own direction.
#[derive(Debug, Clone, PartialEq, Eq)]
pub struct Attribute {
    pub name: String,
    pub items: Vec<AttributeItem>,
}

/// Whether every item's selection addresses only positions of a list of
/// length `len`.
pub open spec fn spec_items_valid(items: Seq<AttributeItem>, len: nat) -> bool {
    forall|k: int| 0 <= k < items.len() ==> spec_sel_valid(
        (#[trigger] items[k]).selection,
        len,
    )
}

/// Whether some item scales with a zero magnitude, which would collapse
/// its selected vertices onto the origin.
pub open spec fn spec_has_fixed_scale(items: Seq<AttributeItem>) -> bool {
    exists|k: int| 0 <= k < items.len() && (#[trigger] items[k]).alteration.operation
        == MatrixType::Scale && spec_is_zero(items[k].alteration.magnitude)
}

/// The vertex list after every item has been applied, in item order:
/// item `k` transforms its selected positions by its derived matrix,
/// with `rots[k]` supplying the sines and cosines when the item rotates.
pub open spec fn spec_items_apply(
    items: Seq<AttributeItem>,
    rots: Seq<Rotation>,
    vs: Seq<Vertex>,
) -> Seq<Vertex>
    decreases items.len(),
{
    if items.len() == 0 {
        vs
    } else {
        let prev = spec_items_apply(items.drop_last(), rots.drop_last(), vs);
        spec_apply(
            items.last().selection,
            spec_alteration_matrix(items.last().alteration, rots.last()),
            prev,
        )
    }
}

/// The all-zero rotations handed to items that do not rotate.
pub open spec fn spec_zero_rotations(n: nat) -> Seq<Rotation> {
    Seq::new(n, |i: int| spec_zero_rotation())
}

/// Applying valid items keeps the vertex list length.
pub proof fn lemma_items_apply_len(
    items: Seq<AttributeItem>,
    rots: Seq<Rotation>,
    vs: Seq<Vertex>,
)
    requires
        spec_items_valid(items, vs.len()),
    ensures
        spec_items_apply(items, rots, vs).len() == vs.len(),
    decreases items.len(),
{
    if items.len() > 0 {
        assert(spec_items_valid(items.drop_last(), vs.len()));
        lemma_items_apply_len(items.drop_last(), rots.drop_last(), vs);
        lemma_apply_len(
            items.last().selection,
            spec_alteration_matrix(items.last().alteration, rots.last()),
            spec_items_apply(items.drop_last(), rots.drop_last(), vs),
        );
    }
}

impl AttributeItem {
    /// The item pairing the given selection and alteration.
    fn new(selection: Selection, alteration: Alteration) -> (r: AttributeItem)
        ensures
            r.selection == selection,
            r.alteration == alteration,
    {
        AttributeItem { selection, alteration }
    }

    /// A scale item over specific indices.
    pub fn scale_specific(dimension: Vector, indices: Vec<Index>) -> (r: AttributeItem)
        ensures
            r.selection == Selection::Specific(indices),
            r.alteration.operation == MatrixType::Scale,
            r.alteration.dimension == dimension,
            r.alteration.magnitude.bits == POS_ZERO,
    {
        AttributeItem::new(
            Selection::specific(indices),
            Alteration::new(MatrixType::Scale).with_dimension(dimension),
        )
    }

    /// A scale item over a half-open index range.
    pub fn scale_range(dimension: Vector, start: usize, end: usize) -> (r: AttributeItem)
        ensures
            r.selection == Selection::Range(start, end),
            r.alteration.operation == MatrixType::Scale,
            r.alteration.dimension == dimension,
            r.alteration.magnitude.bits == POS_ZERO,
    {
        AttributeItem::new(
            Selection::range(start, end),
            Alteration::new(MatrixType::Scale).with_dimension(dimension),
        )
    }

    /// A scale item over the whole vertex list.
    pub fn scale_all(dimension: Vector) -> (r: AttributeItem)
        ensures
            r.selection == Selection::All,
            r.alteration.operation == MatrixType::Scale,
            r.alteration.dimension == dimension,
            r.alteration.magnitude.bits == POS_ZERO,
    {
        AttributeItem::new(
            Selection::all(),
            Alteration::new(MatrixType::Scale).with_dimension(dimension),
        )
    }

    /// A rotate item over specific indices.
    pub fn rotate_specific(dimension: Vector, indices: Vec<Index>) -> (r: AttributeItem)
        ensures
            r.selection == Selection::Specific(indices),
            r.alteration.operation == MatrixType::Rotate,
            r.alteration.dimension == dimension,
            r.alteration.magnitude.bits == POS_ZERO,
    {
        AttributeItem::new(
            Selection::specific(indices),
            Alteration::new(MatrixType::Rotate).with_dimension(dimension),
        )
    }

    /// A rotate item over a half-open index range.
    pub fn rotate_range(dimension: Vector, start: usize, end: usize) -> (r: AttributeItem)
        ensures
            r.selection == Selection::Range(start, end),
            r.alteration.operation == MatrixType::Rotate,
            r.alteration.dimension == dimension,
            r.alteration.magnitude.bits == POS_ZERO,
    {
        AttributeItem::new(
            Selection::range(start, end),
            Alteration::new(MatrixType::Rotate).with_dimension(dimension),
        )
    }

    /// A rotate item over the whole vertex list.
    pub fn rotate_all(dimension: Vector) -> (r: AttributeItem)
        ensures
            r.selection == Selection::All,
            r.alteration.operation == MatrixType::Rotate,
            r.alteration.dimension == dimension,
            r.alteration.magnitude.bits == POS_ZERO,
    {
        AttributeItem::new(
            Selection::all(),
            Alteration::new(MatrixType::Rotate).with_dimension(dimension),
        )
    }

    /// A translate item over specific indices.
    pub fn translate_specific(dimension: Vector, indices: Vec<Index>) -> (r: AttributeItem)
        ensures
            r.selection == Selection::Specific(indices),
            r.alteration.operation == MatrixType::Translate,
            r.alteration.dimension == dimension,
            r.alteration.magnitude.bits == POS_ZERO,
    {
        AttributeItem::new(
            Selection::specific(indices),
            Alteration::new(MatrixType::Translate).with_dimension(dimension),
        )
    }

    /// A translate item over a half-open index range.
    pub fn translate_range(dimension: Vector, start: usize, end: usize) -> (r: AttributeItem)
        ensures
            r.selection == Selection::Range(start, end),
            r.alteration.operation == MatrixType::Translate,
            r.alteration.dimension == dimension,
            r.alteration.magnitude.bits == POS_ZERO,
    {
        AttributeItem::new(
            Selection::range(start, end),
            Alteration::new(MatrixType::Translate).with_dimension(dimension),
        )
    }

    /// A translate item over the whole vertex list.
    pub fn translate_all(dimension: Vector) -> (r: AttributeItem)
        ensures
            r.selection == Selection::All,
            r.alteration.operation == MatrixType::Translate,
            r.alteration.dimension == dimension,
            r.alteration.magnitude.bits == POS_ZERO,
    {
        AttributeItem::new(
            Selection::all(),
            Alteration::new(MatrixType::Translate).with_dimension(dimension),
        )
    }

    /// Replaces the magnitude knob of this item's alteration in place.
    pub fn update_magnitude(&mut self, magnitude: Scalar)
        ensures
            final(self).selection == old(self).selection,
            final(self).alteration == (Alteration {
                magnitude,
                ..old(self).alteration
            }),
    {
        self.alteration.update(magnitude);
    }

    /// Replaces the direction of this item's alteration in place.
    pub fn update_dimension(&mut self, dimension: Vector)
        ensures
            final(self).selection == old(self).selection,
            final(self).alteration == (Alteration {
                dimension,
                ..old(self).alteration
            }),
    {
        self.alteration.update_dimension(dimension);
    }

    /// Applies this item's derived matrix (scale or translate) to its
    /// selected positions, in place. Fails with the out-of-range error,
    /// and only then, when the selection does not fit the list, and then
    /// leaves it untouched.
    pub fn apply(&self, vertices: &mut Vec<Vertex>) -> (r: Result<(), Error>)
        requires
            self.alteration.operation != MatrixType::Rotate,
        ensures
            r is Ok <==> spec_sel_valid(self.selection, old(vertices)@.len()),
            r is Ok ==> final(vertices)@ == spec_apply(
                self.selection,
                spec_alteration_matrix(self.alteration, spec_zero_rotation()),
                old(vertices)@,
            ),
            r is Err ==> final(vertices)@ == old(vertices)@ && r->Err_0 == Error::OutOfRange,
    {
        self.selection.apply(&self.alteration, vertices)
    }

    /// Applies this item's derived matrix to its selected positions, in
    /// place. For a rotate item, `rot` must hold the sines and cosines
    /// of the alteration's scaled direction.
    pub fn apply_rotated(&self, rot: &Rotation, vertices: &mut Vec<Vertex>) -> (r: Result<
        (),
        Error,
    >)
        ensures
            r is Ok <==> spec_sel_valid(self.selection, old(vertices)@.len()),
            r is Ok ==> final(vertices)@ == spec_apply(
                self.selection,
                spec_alteration_matrix(self.alteration, *rot),
                old(vertices)@,
            ),
            r is Err ==> final(vertices)@ == old(vertices)@ && r->Err_0 == Error::OutOfRange,
    {
        self.selection.apply_rotated(&self.alteration, rot, vertices)
    }

    /// The arithmetic mean of the positions this item addresses in the
    /// geometry.
    pub fn centroid(&self, geometry: &Geometry) -> (r: Result<Vertex, Error>)
        ensures
            r is Ok <==> spec_sel_valid(self.selection, geometry.vertices@.len())
                && spec_sel_count(self.selection, geometry.vertices@.len()) > 0,
            r is Ok ==> r->Ok_0 == spec_centroid(self.selection, geometry.vertices@),
            !spec_sel_valid(self.selection, geometry.vertices@.len()) ==> r == Result::<
                Vertex,
                Error,
            >::Err(Error::OutOfRange),
            spec_sel_valid(self.selection, geometry.vertices@.len()) && spec_sel_count(
                self.selection,
                geometry.vertices@.len(),
            ) == 0 ==> r == Result::<Vertex, Error>::Err(Error::EmptyAttribute),
    {
        self.selection.centroid(geometry.vertices())
    }
}

impl Attribute {
    /// The named attribute over the given items, checked once at build
    /// time: the name must be non-empty, the item list must be
    /// non-empty, and no scale item may carry a zero magnitude.
    #[verifier::loop_isolation(false)]
    pub fn new(name: String, items: Vec<AttributeItem>) -> (r: Result<Attribute, Error>)
        ensures
            r is Ok <==> name@.len() > 0 && items@.len() > 0 && !spec_has_fixed_scale(items@),
            r is Ok ==> r->Ok_0 == (Attribute { name, items }),
            name@.len() == 0 ==> r == Result::<Attribute, Error>::Err(Error::UnnamedAttribute),
            name@.len() > 0 && items@.len() == 0 ==> r == Result::<Attribute, Error>::Err(
                Error::EmptyAttribute,
            ),
            name@.len() > 0 && items@.len() > 0 && spec_has_fixed_scale(items@) ==> r
                == Result::<Attribute, Error>::Err(Error::FixedAttribute),
    {
        if name.as_str().is_empty() {
            return Err(Error::UnnamedAttribute);
        }
        if items.len() == 0 {
            return Err(Error::EmptyAttribute);
        }
        let mut k: usize = 0;
        while k < items.len()
            invariant
                k <= items@.len(),
                forall|j: int| 0 <= j < k ==> !((#[trigger] items@[j]).alteration.operation
                    == MatrixType::Scale && spec_is_zero(items@[j].alteration.magnitude)),
            decreases items@.len() - k,
        {
            let item = &items[k];
            let fixed = match item.alteration.operation {
                MatrixType::Scale => item.alteration.magnitude.is_zero(),
                _ => false,
            };
            if fixed {
                proof {
                    assert(items@[k as int].alteration.operation == MatrixType::Scale
                        && spec_is_zero(items@[k as int].alteration.magnitude));
                }
                return Err(Error::FixedAttribute);
            }
            k = k + 1;
        }
        Ok(Attribute { name, items })
    }

    /// Broadcasts one magnitude into every item's alteration: the single
    /// mechanism by which the named parameter drives all its vertex
    /// groups at once.
    pub fn update(&mut self, value: Scalar)
        ensures
            final(self).name == old(self).name,
            final(self).items@.len() == old(self).items@.len(),
            forall|k: int| 0 <= k < old(self).items@.len() ==> #[trigger] final(self).items@[k]
                == (AttributeItem {
                selection: old(self).items@[k].selection,
                alteration: Alteration { magnitude: value, ..old(self).items@[k].alteration },
            }),
    {
        let mut k: usize = 0;
        while k < self.items.len()
            invariant
                k <= self.items@.len(),
                self.name == old(self).name,
                self.items@.len() == old(self).items@.len(),
                forall|j: int| 0 <= j < k ==> #[trigger] self.items@[j] == (AttributeItem {
                    selection: old(self).items@[j].selection,
                    alteration: Alteration {
                        magnitude: value,
                        ..old(self).items@[j].alteration
                    },
                }),
                forall|j: int| k <= j < self.items@.len() ==> #[trigger] self.items@[j] == old(
                    self,
                ).items@[j],
            decreases self.items@.len() - k,
        {
            self.items[k].update_magnitude(value);
            k = k + 1;
        }
    }

    /// Applies every item to the vertex list, in item order. The items
    /// are checked first: when any selection does not fit the list, the
    /// out-of-range error is returned and the list is left untouched, so
    /// a failing revision never leaves a partial overwrite behind.
    pub fn apply(&self, vertices: &mut Vec<Vertex>) -> (r: Result<(), Error>)
        requires
            forall|k: int| 0 <= k < self.items@.len() ==> (#[trigger] self.items@[
                k
            ]).alteration.operation != MatrixType::Rotate,
        ensures
            r is Ok <==> spec_items_valid(self.items@, old(vertices)@.len()),
            r is Ok ==> final(vertices)@ == spec_items_apply(
                self.items@,
                spec_zero_rotations(self.items@.len()),
                old(vertices)@,
            ),
            r is Err ==> final(vertices)@ == old(vertices)@ && r->Err_0 == Error::OutOfRange,
    {
        let mut rots: Vec<Rotation> = Vec::new();
        while rots.len() < self.items.len()
            invariant
                rots@.len() <= self.items@.len(),
                forall|j: int| 0 <= j < rots@.len() ==> #[trigger] rots@[j]
                    == spec_zero_rotation(),
            decreases self.items@.len() - rots@.len(),
        {
            rots.push(Rotation::zero());
        }
        proof {
            assert(rots@ =~= spec_zero_rotations(self.items@.len()));
        }
        self.apply_rotated(&rots, vertices)
    }

    /// Applies every item to the vertex list, in item order, with
    /// `rots[k]` supplying the sines and cosines of item `k`'s scaled
    /// direction where that item rotates (the entry is ignored
    /// otherwise). The items are checked first: on failure the list is
    /// untouched.
    #[verifier::loop_isolation(false)]
    pub fn apply_rotated(&self, rots: &Vec<Rotation>, vertices: &mut Vec<Vertex>) -> (r: Result<
        (),
        Error,
    >)
        requires
            rots@.len() == self.items@.len(),
        ensures
            r is Ok <==> spec_items_valid(self.items@, old(vertices)@.len()),
            r is Ok ==> final(vertices)@ == spec_items_apply(
                self.items@,
                rots@,
                old(vertices)@,
            ),
            r is Err ==> final(vertices)@ == old(vertices)@ && r->Err_0 == Error::OutOfRange,
    {
        let mut k: usize = 0;
        while k < self.items.len()
            invariant
                k <= self.items@.len(),
                forall|j: int| 0 <= j < k ==> spec_sel_valid(
                    (#[trigger] self.items@[j]).selection,
                    vertices@.len(),
                ),
            decreases self.items@.len() - k,
        {
            if !self.items[k].selection.valid_for(vertices) {
                proof {
                    assert(!spec_sel_valid(self.items@[k as int].selection, vertices@.len()));
                }
                return Err(Error::OutOfRange);
            }
            k = k + 1;
        }

        let ghost vs0 = vertices@;
        let mut i: usize = 0;
        while i < self.items.len()
            invariant
                i <= self.items@.len(),
                rots@.len() == self.items@.len(),
                spec_items_valid(self.items@, vs0.len()),
                vertices@.len() == vs0.len(),
                vertices@ == spec_items_apply(
                    self.items@.take(i as int),
                    rots@.take(i as int),
                    vs0,
                ),
            decreases self.items@.len() - i,
        {
            proof {
                assert(spec_items_valid(self.items@.take(i as int), vs0.len()));
                lemma_items_apply_len(self.items@.take(i as int), rots@.take(i as int), vs0);
            }
            let outcome = self.items[i].apply_rotated(&rots[i], vertices);
            proof {
                let i1 = i + 1int;
                assert(self.items@.take(i1).drop_last() =~= self.items@.take(i as int));
                assert(rots@.take(i1).drop_last() =~= rots@.take(i as int));
                assert(self.items@.take(i1).last() == self.items@[i as int]);
                assert(rots@.take(i1).last() == rots@[i as int]);
                lemma_apply_len(
                    self.items@[i as int].selection,
                    spec_alteration_matrix(self.items@[i as int].alteration, rots@[i as int]),
                    spec_items_apply(self.items@.take(i as int), rots@.take(i as int), vs0),
                );
            }
            i = i + 1;
        }
        proof {
            assert(self.items@.take(self.items@.len() as int) =~= self.items@);
            assert(rots@.take(rots@.len() as int) =~= rots@);
        }
        Ok(())
    }

    /// Applies every item to the geometry's vertex list: the sole
    /// externally visible mutation entry point. The revision is
    /// relative, not absolute: it transforms whatever vertex state
    /// currently exists, so repeated calls with the same magnitude
    /// compound rather than reset to an original pose.
    pub fn revise(&self, geometry: &mut Geometry) -> (r: Result<(), Error>)
        requires
            forall|k: int| 0 <= k < self.items@.len() ==> (#[trigger] self.items@[
                k
            ]).alteration.operation != MatrixType::Rotate,
        ensures
            r is Ok <==> spec_items_valid(self.items@, old(geometry).vertices@.len()),
            r is Ok ==> final(geometry).vertices@ == spec_items_apply(
                self.items@,
                spec_zero_rotations(self.items@.len()),
                old(geometry).vertices@,
            ),
            r is Err ==> final(geometry).vertices@ == old(geometry).vertices@ && r->Err_0
                == Error::OutOfRange,
            final(geometry).faces == old(geometry).faces,
    {
        let vertices = geometry.vertices_mut();
        self.apply(vertices)
    }

    /// Applies every item to the geometry's vertex list, with `rots`
    /// supplying the sines and cosines for the items that rotate, as in
    /// [`Attribute::apply_rotated`]. Like [`Attribute::revise`], the
    /// revision is relative: repeated calls compound.
    pub fn revise_rotated(&self, geometry: &mut Geometry, rots: &Vec<Rotation>) -> (r: Result<
        (),
        Error,
    >)
        requires
            rots@.len() == self.items@.len(),
        ensures
            r is Ok <==> spec_items_valid(self.items@, old(geometry).vertices@.len()),
            r is Ok ==> final(geometry).vertices@ == spec_items_apply(
                self.items@,
                rots@,
                old(geometry).vertices@,
            ),
            r is Err ==> final(geometry).vertices@ == old(geometry).vertices@ && r->Err_0
                == Error::OutOfRange,
            final(geometry).faces == old(geometry).faces,
    {
        let vertices = geometry.vertices_mut();
        self.apply_rotated(rots, vertices)
    }

    /// The Euclidean distance between item `start`'s and item `end`'s
    /// centroids in the geometry's current vertex state: the measured,
    /// real-world effect of a parametric change.
    pub fn distance(&self, geometry: &Geometry, start: usize, end: usize) -> (r: Result<
        Scalar,
        Error,
    >)
        requires
            start < self.items@.len(),
            end < self.items@.len(),
        ensures
            r is Ok <==> spec_sel_valid(self.items@[start as int].selection, geometry.vertices@.len())
                && spec_sel_count(self.items@[start as int].selection, geometry.vertices@.len()) > 0
                && spec_sel_valid(self.items@[end as int].selection, geometry.vertices@.len())
                && spec_sel_count(self.items@[end as int].selection, geometry.vertices@.len()) > 0,
            r is Ok ==> r->Ok_0 == crate::vector::spec_distance(
                spec_centroid(self.items@[start as int].selection, geometry.vertices@),
                spec_centroid(self.items@[end as int].selection, geometry.vertices@),
            ),
            !spec_sel_valid(self.items@[start as int].selection, geometry.vertices@.len())
                ==> r == Result::<Scalar, Error>::Err(Error::OutOfRange),
            spec_sel_valid(self.items@[start as int].selection, geometry.vertices@.len())
                && spec_sel_count(self.items@[start as int].selection, geometry.vertices@.len())
                == 0 ==> r == Result::<Scalar, Error>::Err(Error::EmptyAttribute),
            spec_sel_valid(self.items@[start as int].selection, geometry.vertices@.len())
                && spec_sel_count(self.items@[start as int].selection, geometry.vertices@.len())
                > 0 && !spec_sel_valid(self.items@[end as int].selection, geometry.vertices@.len())
                ==> r == Result::<Scalar, Error>::Err(Error::OutOfRange),
            spec_sel_valid(self.items@[start as int].selection, geometry.vertices@.len())
                && spec_sel_count(self.items@[start as int].selection, geometry.vertices@.len())
                > 0 && spec_sel_valid(self.items@[end as int].selection, geometry.vertices@.len())
                && spec_sel_count(self.items@[end as int].selection, geometry.vertices@.len())
                == 0 ==> r == Result::<Scalar, Error>::Err(Error::EmptyAttribute),
    {
        let a = match self.items[start].centroid(geometry) {
            Ok(v) => v,
            Err(e) => {
                return Err(e);
            },
        };
        let b = match self.items[end].centroid(geometry) {
            Ok(v) => v,
            Err(e) => {
                return Err(e);
            },
        };
        Ok(a.distance(&b))
    }
}

} // verus!
