use vstd::prelude::*;
use vstd::string::StringSliceAdditionalSpecFns;
use crate::errors::Error;
use crate::vector::Vertex;
use crate::vector::Normal;
use crate::triangle::Triangle;
use crate::triangle::spec_normal;
use crate::utilities::{spec_extract, spec_dec, push_dec, lemma_dec_ascii, string_from_ascii};

verus! {

/// A position in a geometry's vertex array.
pub type Index = usize;

/// The 0-based index that the 1-based value `n` denotes: one less,
/// saturating at 0.
pub open spec fn spec_zero_based(n: usize) -> usize {
    if n == 0 {
        0usize
    } else {
        (n - 1) as usize
    }
}

/// The 1-based index that the 0-based value `n` is written as: one
/// more, saturating at the largest index.
pub open spec fn spec_one_based(n: usize) -> usize {
    if n == usize::MAX {
        n
    } else {
        (n + 1) as usize
    }
}

/// The bytes of the face's text line: the tag `f`, then the three
/// 1-based indices in decimal, separated by single spaces.
pub open spec fn spec_face_line(f: Face) -> Seq<u8> {
    seq![102u8, 32u8] + spec_dec(spec_one_based(f.a) as nat) + seq![32u8] + spec_dec(
        spec_one_based(f.b) as nat,
    ) + seq![32u8] + spec_dec(spec_one_based(f.c) as nat)
}

/// Every byte of a face's text line is ASCII.
proof fn lemma_face_line_ascii(f: Face)
    ensures
        forall|k: int| 0 <= k < spec_face_line(f).len() ==> #[trigger] spec_face_line(f)[k]
            < 128,
{
    let da = spec_dec(spec_one_based(f.a) as nat);
    let db = spec_dec(spec_one_based(f.b) as nat);
    let dc = spec_dec(spec_one_based(f.c) as nat);
    lemma_dec_ascii(spec_one_based(f.a) as nat);
    lemma_dec_ascii(spec_one_based(f.b) as nat);
    lemma_dec_ascii(spec_one_based(f.c) as nat);
    assert forall|k: int| 0 <= k < spec_face_line(f).len() implies #[trigger] spec_face_line(
        f,
    )[k] < 128 by {
        let line = spec_face_line(f);
        if k < 2 {
        } else if k < 2 + da.len() {
            assert(line[k] == da[k - 2]);
        } else if k == 2 + da.len() {
            assert(line[k] == 32u8);
        } else if k < 3 + da.len() + db.len() {
            assert(line[k] == db[k - 3 - da.len()]);
        } else if k == 3 + da.len() + db.len() {
            assert(line[k] == 32u8);
        } else {
            assert(line[k] == dc[k - 4 - da.len() - db.len()]);
        }
    }
}

/// Whether all three indices of `f` address a vertex array of length
/// `len`.
pub open spec fn spec_face_valid(f: Face, len: nat) -> bool {
    f.a < len && f.b < len && f.c < len
}

/// The triangle that face `f` references in the vertex list `data`: the
/// three vertices it addresses, copied, together with the indices.
pub open spec fn spec_triangle(f: Face, data: Seq<Vertex>) -> Triangle {
    Triangle {
        indices: (f.a, f.b, f.c),
        p1: data[f.a as int],
        p2: data[f.b as int],
        p3: data[f.c as int],
    }
}

/// Three references into a geometry's vertex array.
///
/// A face never owns vertex data: it holds 0-based indices, converted on
/// construction from the 1-based numbering used by the line-based mesh
/// text format.
#[derive(Debug, Clone, Copy, PartialEq, Eq, Structural)]
pub struct Face {
    pub a: Index,
    pub b: Index,
    pub c: Index,
}

impl Face {
    /// The face with the given 1-based indices, converted to 0-based by
    /// subtracting one, saturating at 0.
    pub fn new(a: usize, b: usize, c: usize) -> (r: Face)
        ensures
            r.a == spec_zero_based(a),
            r.b == spec_zero_based(b),
            r.c == spec_zero_based(c),
    {
        Face {
            a: if a == 0 { 0 } else { a - 1 },
            b: if b == 0 { 0 } else { b - 1 },
            c: if c == 0 { 0 } else { c - 1 },
        }
    }

    /// The face with the given 1-based indices, as a tuple.
    pub fn with(v: (usize, usize, usize)) -> (r: Face)
        ensures
            r.a == spec_zero_based(v.0),
            r.b == spec_zero_based(v.1),
            r.c == spec_zero_based(v.2),
    {
        Face::make(v.0, v.1, v.2)
    }

    /// The face with the given 1-based indices.
    pub fn make(a: usize, b: usize, c: usize) -> (r: Face)
        ensures
            r.a == spec_zero_based(a),
            r.b == spec_zero_based(b),
            r.c == spec_zero_based(c),
    {
        Face::new(a, b, c)
    }

    /// Whether all three indices address the given vertex array.
    pub fn is_valid(&self, data: &Vec<Vertex>) -> (r: bool)
        ensures
            r == spec_face_valid(*self, data@.len()),
    {
        let l = data.len();
        self.a < l && self.b < l && self.c < l
    }

    /// A copy of the three referenced vertices, together with the
    /// indices.
    pub fn triangle(&self, data: &Vec<Vertex>) -> (r: Triangle)
        requires
            spec_face_valid(*self, data@.len()),
        ensures
            r == spec_triangle(*self, data@),
    {
        let p1 = data[self.a];
        let p2 = data[self.b];
        let p3 = data[self.c];
        let indices = (self.a, self.b, self.c);

        Triangle { indices, p1, p2, p3 }
    }

    /// The unit normal of the triangle this face references.
    pub fn normal(&self, data: &Vec<Vertex>) -> (r: Normal)
        requires
            spec_face_valid(*self, data@.len()),
        ensures
            r == spec_normal(spec_triangle(*self, data@)),
    {
        self.triangle(data).normal()
    }

    /// Reads a face from a tagged mesh line of 1-based indices, such as
    /// `f 1 3 9`. Fails with the parse error, and only then, when the
    /// line does not hold three integers after the tag.
    pub fn parse(line: &str) -> (r: Result<Face, Error>)
        ensures
            r is Ok <==> spec_extract(line.spec_bytes(), 'f' as u32) is Some,
            r is Ok ==> r->Ok_0.a == spec_zero_based(
                (spec_extract(line.spec_bytes(), 'f' as u32)->0).0 as usize,
            ),
            r is Ok ==> r->Ok_0.b == spec_zero_based(
                (spec_extract(line.spec_bytes(), 'f' as u32)->0).1 as usize,
            ),
            r is Ok ==> r->Ok_0.c == spec_zero_based(
                (spec_extract(line.spec_bytes(), 'f' as u32)->0).2 as usize,
            ),
            r is Err ==> r->Err_0 == Error::ParseError,
    {
        match crate::utilities::extract('f', line) {
            Ok((a, b, c)) => Ok(Face::new(a, b, c)),
            Err(e) => Err(e),
        }
    }

    /// The face as a tagged mesh line of 1-based indices, such as
    /// `f 1 3 9`: each 0-based index is written one higher, saturating.
    pub fn render(&self) -> (r: String)
        ensures
            r@ == spec_face_line(*self).map_values(|b: u8| b as char),
    {
        let mut out: Vec<u8> = Vec::new();
        out.push(102);
        out.push(32);
        push_dec(Face::one_based(self.a), &mut out);
        out.push(32);
        push_dec(Face::one_based(self.b), &mut out);
        out.push(32);
        push_dec(Face::one_based(self.c), &mut out);
        proof {
            assert(out@ =~= spec_face_line(*self));
            lemma_face_line_ascii(*self);
        }
        let r = string_from_ascii(out);
        proof {
            assert(r@ =~= spec_face_line(*self).map_values(|b: u8| b as char));
        }
        r
    }

    /// The 1-based form of a 0-based index: one more, saturating.
    fn one_based(n: usize) -> (r: usize)
        ensures
            r == spec_one_based(n),
    {
        if n == usize::MAX {
            n
        } else {
            n + 1
        }
    }
}

} // verus!
