use vstd::prelude::*;

verus! {

/// The declared failure kinds of the library.
///
/// Parse and build-time conditions are checked once, when a face line is
/// read or when an attribute is assembled; the index and length conditions
/// are raised by the selection operations instead of aborting.
#[derive(Debug, Clone, Copy, PartialEq, Eq, Structural)]
pub enum Error {
    /// A line could not be read as geometry.
    ParseError,
    /// A scale alteration was built with magnitude zero, which would
    /// collapse the selected vertices onto the origin.
    FixedAttribute,
    /// An attribute was built with an empty name.
    UnnamedAttribute,
    /// An attribute was built with no items, or a selection addresses no
    /// vertices.
    EmptyAttribute,
    /// A floating-point token could not be parsed.
    ParseFloatError,
    /// An integer token could not be parsed.
    ParseIntError,
    /// A face references a vertex index outside the vertex array.
    InvalidStructure,
    /// A selection addresses an index outside the vertex list.
    OutOfRange,
    /// The replacement values handed to a selection do not match the number
    /// of addressed vertices.
    LengthMismatch,
}

impl Error {
    /// A short description of the failure.
    pub fn message(&self) -> (r: &'static str)
        ensures
            r@.len() > 0,
    {
        proof {
            reveal_strlit("Could not parse string to geometry");
            reveal_strlit("Attribute scaling value is 0.0");
            reveal_strlit("Attribute doesn't have a name");
            reveal_strlit("Attribute doesn't change any vertices");
            reveal_strlit("Could not parse a float from string");
            reveal_strlit("Could not parse an integer from string");
            reveal_strlit("Face references a vertex that does not exist");
            reveal_strlit("Selection index is out of range");
            reveal_strlit("Selection and replacement lengths differ");
        }
        match self {
            Error::ParseError => "Could not parse string to geometry",
            Error::FixedAttribute => "Attribute scaling value is 0.0",
            Error::UnnamedAttribute => "Attribute doesn't have a name",
            Error::EmptyAttribute => "Attribute doesn't change any vertices",
            Error::ParseFloatError => "Could not parse a float from string",
            Error::ParseIntError => "Could not parse an integer from string",
            Error::InvalidStructure => "Face references a vertex that does not exist",
            Error::OutOfRange => "Selection index is out of range",
            Error::LengthMismatch => "Selection and replacement lengths differ",
        }
    }
}

} // verus!
