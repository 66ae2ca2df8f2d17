//! A geometry that is not yet bound to one database.
use crate::byte_order::Endianess;
use crate::error::Error;
use crate::ewkb::ewkb_bytes;
use crate::io::produced;
use crate::spatialite::spatialite_bytes;
use crate::types::{Geometry, GeometryView};
use std::ops::{Deref, DerefMut};
use vstd::prelude::*;
use vstd::std_specs::convert::FromSpecImpl;

verus! {

/// A geometry for which the format is chosen where it is handed to a
/// database: EWKB for PostGIS, the native format for SpatiaLite.
#[derive(Debug, Clone, PartialEq)]
pub struct AutoGeometry(pub Geometry);

impl View for AutoGeometry {
    type V = GeometryView;

    open spec fn view(&self) -> GeometryView {
        self.0@
    }
}

/// The databases that a geometry can be handed to.
#[derive(Debug, Clone, Copy, PartialEq, Eq, Structural)]
pub enum DatabaseKind {
    Postgres,
    SqlLite,
}

/// The encoding of a geometry for a database, in byte order `e`: EWKB for
/// PostGIS, the native format for SpatiaLite.
pub open spec fn encoding_for(g: GeometryView, database: DatabaseKind, e: Endianess) -> Result<
    Seq<u8>,
    Error,
> {
    match database {
        DatabaseKind::Postgres => Ok(ewkb_bytes(g, e)),
        DatabaseKind::SqlLite => spatialite_bytes(g, e),
    }
}

impl AutoGeometry {
    /// Encodes the geometry in the format of the database, in the byte order
    /// of the machine.
    pub fn encode_for(&self, database: DatabaseKind) -> (r: Result<Vec<u8>, Error>)
        ensures
            produced(encoding_for(self@, database, Endianess::BigEndian), r) || produced(
                encoding_for(self@, database, Endianess::LittleEndian),
                r,
            ),
    {
        let mut bytes: Vec<u8> = Vec::new();
        let encoded = match database {
            DatabaseKind::Postgres => crate::ewkb::encode_geometry(&self.0, &mut bytes),
            DatabaseKind::SqlLite => crate::spatialite::encode_geometry(&self.0, &mut bytes),
        };
        assert(forall|s: Seq<u8>| Seq::<u8>::empty() + s =~= s);
        match encoded {
            Ok(_) => Ok(bytes),
            Err(error) => Err(error),
        }
    }
}

impl Deref for AutoGeometry {
    type Target = Geometry;

    fn deref(&self) -> (r: &Self::Target)
        ensures
            *r == self.0,
    {
        &self.0
    }
}

impl DerefMut for AutoGeometry {
    fn deref_mut(&mut self) -> (r: &mut Self::Target)
        ensures
            *r == old(self).0,
            final(self).0 == *final(r),
    {
        &mut self.0
    }
}

impl From<Geometry> for AutoGeometry {
    fn from(value: Geometry) -> (r: Self) {
        Self(value)
    }
}

impl FromSpecImpl<Geometry> for AutoGeometry {
    open spec fn obeys_from_spec() -> bool {
        true
    }

    open spec fn from_spec(value: Geometry) -> Self {
        Self(value)
    }
}

impl From<AutoGeometry> for Geometry {
    fn from(value: AutoGeometry) -> (r: Self) {
        value.0
    }
}

impl FromSpecImpl<AutoGeometry> for Geometry {
    open spec fn obeys_from_spec() -> bool {
        true
    }

    open spec fn from_spec(value: AutoGeometry) -> Self {
        value.0
    }
}

} // verus!
