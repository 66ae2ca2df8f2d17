//! A polygon: an outer ring and the rings of its holes.
use super::mbr::{mbr_of, MBR};
use super::vectors::{
    all_closed, closable, lemma_close_rings_idempotent, matrix_extreme, rings_closed,
    VectorMatrix,
};
use crate::error::Error;
use crate::DEFAULT_SRID;
use vstd::prelude::*;

verus! {

pub type PolygonCoordinates<const N: usize, U> = VectorMatrix<N, U>;

/// A polygon: an outer ring and the rings of its holes.
#[derive(Debug, Clone, PartialEq, Eq)]
pub struct Polygon<const N: usize, U> {
    pub coordinates: PolygonCoordinates<N, U>,
    pub srid: Option<u32>,
}

impl<const N: usize> Polygon<N, u64> {
    /// Whether the polygon is well formed: every ring is closed.
    pub open spec fn well_formed(&self) -> bool {
        rings_closed(self.coordinates@)
    }

    /// The polygon over the rings, each closed, in the default reference
    /// system. It is well formed unless a ring starts with a NaN.
    pub fn new(coordinates: PolygonCoordinates<N, u64>) -> (r: Self)
        ensures
            r.coordinates@ == all_closed(coordinates@),
            r.srid == Some(DEFAULT_SRID),
            closable(coordinates@) ==> r.well_formed(),
    {
        proof {
            if closable(coordinates@) {
                lemma_close_rings_idempotent(coordinates@);
            }
        }
        let mut coordinates = coordinates;
        coordinates.close_rings();
        Self { coordinates, srid: Some(DEFAULT_SRID) }
    }

    /// The polygon over the rings, each closed, in the reference system
    /// `srid`.
    pub fn new_with_srid(coordinates: PolygonCoordinates<N, u64>, srid: u32) -> (r: Self)
        ensures
            r.coordinates@ == all_closed(coordinates@),
            r.srid == Some(srid),
            closable(coordinates@) ==> r.well_formed(),
    {
        proof {
            if closable(coordinates@) {
                lemma_close_rings_idempotent(coordinates@);
            }
        }
        let mut coordinates = coordinates;
        coordinates.close_rings();
        Self { coordinates, srid: Some(srid) }
    }

    /// The bounding rectangle: an error where there are no coordinates to
    /// bound, or where one of them is a NaN.
    pub fn mbr(&self) -> (r: Result<MBR<u64>, Error>)
        requires
            N >= 2,
        ensures
            r == mbr_of(
                matrix_extreme(self.coordinates@, 0, false),
                matrix_extreme(self.coordinates@, 0, true),
                matrix_extreme(self.coordinates@, 1, false),
                matrix_extreme(self.coordinates@, 1, true),
            ),
    {
        let min_x = self.coordinates.min_x()?;
        let max_x = self.coordinates.max_x()?;
        let min_y = self.coordinates.min_y()?;
        let max_y = self.coordinates.max_y()?;
        Ok(MBR { min_x, min_y, max_x, max_y })
    }
}

} // verus!
