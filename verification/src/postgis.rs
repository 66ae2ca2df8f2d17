//! A geometry as it is handed to PostGIS.
use crate::byte_order::Endianess;
use crate::error::Error;
use crate::ewkb::{decode_geometry, encode_geometry, ewkb_bytes, ewkb_decode};
use crate::io::{Decodable, Encodable};
use crate::types::{Geometry, GeometryView};
use std::ops::{Deref, DerefMut};
use vstd::prelude::*;
use vstd::std_specs::convert::{FromSpecImpl, IntoSpec};

verus! {

/// A geometry that PostGIS reads and writes, which it does in the EWKB
/// format.
#[derive(Debug, Clone, PartialEq)]
pub struct PgGeometry(pub Geometry);

impl View for PgGeometry {
    type V = GeometryView;

    open spec fn view(&self) -> GeometryView {
        self.0@
    }
}

impl PgGeometry {
    pub fn new<G: Into<Geometry>>(args: G) -> (r: Self)
        ensures
            call_ensures(<G as Into<Geometry>>::into, (args,), r.0),
            G::obeys_into_spec() ==> r.0 == args.into_spec(),
    {
        Self(args.into())
    }
}

impl Encodable for PgGeometry {
    open spec fn encoding(&self, e: Endianess) -> Result<Seq<u8>, Error> {
        Ok(ewkb_bytes(self@, e))
    }

    fn encode(&self, stream: &mut Vec<u8>) -> (r: Result<(), Error>) {
        encode_geometry(&self.0, stream)
    }
}

impl Decodable for PgGeometry {
    open spec fn geometry(&self) -> GeometryView {
        self@
    }

    open spec fn decoding(stream: Seq<u8>) -> Result<GeometryView, Error> {
        ewkb_decode(stream)
    }

    fn decode(stream: &[u8]) -> (r: Result<Self, Error>) {
        match decode_geometry(stream) {
            Ok(geometry) => Ok(Self(geometry)),
            Err(error) => Err(error),
        }
    }
}

impl From<Geometry> for PgGeometry {
    fn from(value: Geometry) -> (r: Self) {
        Self(value)
    }
}

impl FromSpecImpl<Geometry> for PgGeometry {
    open spec fn obeys_from_spec() -> bool {
        true
    }

    open spec fn from_spec(value: Geometry) -> Self {
        Self(value)
    }
}

impl Deref for PgGeometry {
    type Target = Geometry;

    fn deref(&self) -> (r: &Self::Target)
        ensures
            *r == self.0,
    {
        &self.0
    }
}

impl DerefMut for PgGeometry {
    fn deref_mut(&mut self) -> (r: &mut Self::Target)
        ensures
            *r == old(self).0,
            final(self).0 == *final(r),
    {
        &mut self.0
    }
}

} // verus!
