//! The errors of the library. Each is returned to the caller; none ends the
//! process.
use crate::types::GeometryKind;
use vstd::prelude::*;

verus! {

#[derive(Debug, Clone, Copy, PartialEq, Eq)]
pub enum Error {
    /// A geometry was narrowed to a shape that it does not have.
    InvalidGeometryKind { expecting: GeometryKind, got: GeometryKind },
    /// Coordinates were narrowed to a form that they do not have.
    InvalidCoordinates,
    /// The bytes ended before the encoded value did.
    UnexpectedEof,
    /// The byte that should announce the byte order is neither marker.
    InvalidEndianess { marker: u8 },
    /// The number that should name the geometry kind names none.
    UnknownGeometryCode { code: u32 },
    /// The number names a kind that is registered but has no encoding.
    UnsupportedGeometryKind { kind: GeometryKind },
    /// A byte that must hold a fixed value holds another.
    InvalidMarker { expected: u8, found: u8 },
    /// A bounding box was asked of a sequence without coordinates.
    EmptyCoordinates,
    /// A bounding box was asked of coordinates that hold a NaN.
    NotANumber,
}

impl Error {
    pub fn invalid_geometry_kind(expecting: GeometryKind, got: GeometryKind) -> (e: Self)
        ensures
            e == (Error::InvalidGeometryKind { expecting, got }),
    {
        Self::InvalidGeometryKind { expecting, got }
    }

    /// Whether the error reports bytes that break the format, as opposed to
    /// bytes that end too early or a misuse of a value.
    pub open spec fn malformed(self) -> bool {
        self is InvalidEndianess || self is UnknownGeometryCode || self is UnsupportedGeometryKind
            || self is InvalidMarker
    }

    /// Whether the error reports bytes that break the format, as opposed to
    /// bytes that end too early or a misuse of a value.
    pub fn is_malformed(&self) -> (r: bool)
        ensures
            r == self.malformed(),
    {
        match self {
            Error::InvalidEndianess { .. } => true,
            Error::UnknownGeometryCode { .. } => true,
            Error::UnsupportedGeometryKind { .. } => true,
            Error::InvalidMarker { .. } => true,
            _ => false,
        }
    }
}

} // verus!
