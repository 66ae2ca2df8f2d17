//! The minimum bounding rectangle.
use crate::error::Error;
use vstd::prelude::*;

verus! {

/// Minimum bounding rectangle: the smallest rectangle along the axes that
/// holds all the coordinates of a geometry.
#[derive(Debug, Clone, Copy, PartialEq, Eq)]
pub struct MBR<U> {
    pub min_x: U,
    pub min_y: U,
    pub max_x: U,
    pub max_y: U,
}

/// The rectangle with the four bounds, or the first error among them in the
/// order least x, greatest x, least y, greatest y.
pub open spec fn mbr_of(
    min_x: Result<u64, Error>,
    max_x: Result<u64, Error>,
    min_y: Result<u64, Error>,
    max_y: Result<u64, Error>,
) -> Result<MBR<u64>, Error> {
    if min_x is Err {
        Err(min_x->Err_0)
    } else if max_x is Err {
        Err(max_x->Err_0)
    } else if min_y is Err {
        Err(min_y->Err_0)
    } else if max_y is Err {
        Err(max_y->Err_0)
    } else {
        Ok(MBR { min_x: min_x->Ok_0, min_y: min_y->Ok_0, max_x: max_x->Ok_0, max_y: max_y->Ok_0 })
    }
}

} // verus!
