//! A set of polygons.
use super::mbr::{mbr_of, MBR};
use super::vectors::{tensor_extreme, VectorTensor};
use crate::error::Error;
use crate::DEFAULT_SRID;
use vstd::prelude::*;

verus! {

pub type MultiPolygonCoordinates<const N: usize, U> = VectorTensor<N, U>;

/// A set of polygons.
#[derive(Debug, Clone, PartialEq, Eq)]
pub struct MultiPolygon<const N: usize, U> {
    pub coordinates: MultiPolygonCoordinates<N, U>,
    pub srid: Option<u32>,
}

impl<const N: usize, U> MultiPolygon<N, U> {
    /// The geometry over the coordinates, in the default reference system.
    pub fn new(coordinates: MultiPolygonCoordinates<N, U>) -> (r: Self)
        ensures
            r.coordinates == coordinates,
            r.srid == Some(DEFAULT_SRID),
    {
        Self { coordinates, srid: Some(DEFAULT_SRID) }
    }

    /// The geometry over the coordinates, in the reference system `srid`.
    pub fn new_with_srid(coordinates: MultiPolygonCoordinates<N, U>, srid: u32) -> (r: Self)
        ensures
            r.coordinates == coordinates,
            r.srid == Some(srid),
    {
        Self { coordinates, srid: Some(srid) }
    }
}

impl<const N: usize> MultiPolygon<N, u64> {
    /// The bounding rectangle: an error where there are no coordinates to
    /// bound, or where one of them is a NaN.
    pub fn mbr(&self) -> (r: Result<MBR<u64>, Error>)
        requires
            N >= 2,
        ensures
            r == mbr_of(
                tensor_extreme(self.coordinates@, 0, false),
                tensor_extreme(self.coordinates@, 0, true),
                tensor_extreme(self.coordinates@, 1, false),
                tensor_extreme(self.coordinates@, 1, true),
            ),
    {
        let min_x = self.coordinates.min_x()?;
        let max_x = self.coordinates.max_x()?;
        let min_y = self.coordinates.min_y()?;
        let max_y = self.coordinates.max_y()?;
        Ok(MBR { min_x, min_y, max_x, max_y })
    }
}

} // verus!
