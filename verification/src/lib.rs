//! Geometry interchange core: a coordinate data model, its bounding boxes,
//! and the two binary wire formats spoken by PostGIS (EWKB) and SpatiaLite.
//!
//! Coordinates are carried as the IEEE-754 bit patterns of 64-bit floats, so
//! that every rule of the library is stated over integers.
use vstd::prelude::*;

pub mod auto;
pub mod byte_order;
pub mod error;
pub mod ewkb;
pub mod geo_json;
pub mod io;
pub mod payload;
pub mod postgis;
pub mod scalar;
pub mod spatialite;
pub mod types;

verus! {

/// The spatial reference identifier given to geometries that are built
/// without naming one (WGS 84).
pub const DEFAULT_SRID: u32 = 4326;

} // verus!
