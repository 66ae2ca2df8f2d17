//! A point.
use super::mbr::MBR;
use super::vectors::Vector;
use crate::DEFAULT_SRID;
use std::ops::{Deref, DerefMut};
use vstd::prelude::*;

verus! {

pub type PointCoordinates<const N: usize, U> = Vector<N, U>;

/// A point in a space of `N` dimensions.
#[derive(Debug, PartialEq, Eq, Clone)]
pub struct Point<const N: usize, U> {
    pub coordinates: PointCoordinates<N, U>,
    pub srid: Option<u32>,
}

impl<const N: usize, U> Point<N, U> {
    /// The point at the coordinates, in the default reference system.
    pub fn new(coordinates: PointCoordinates<N, U>) -> (r: Self)
        ensures
            r.coordinates == coordinates,
            r.srid == Some(DEFAULT_SRID),
    {
        Self { coordinates, srid: Some(DEFAULT_SRID) }
    }

    /// The point at the coordinates, in the reference system `srid`.
    pub fn new_with_srid(coordinates: PointCoordinates<N, U>, srid: u32) -> (r: Self)
        ensures
            r.coordinates == coordinates,
            r.srid == Some(srid),
    {
        Self { coordinates, srid: Some(srid) }
    }
}

impl<const N: usize, U: Copy> Point<N, U> {
    /// The bounding rectangle, which is the point itself.
    pub fn mbr(&self) -> (r: MBR<U>)
        requires
            N >= 2,
        ensures
            r == (MBR {
                min_x: self.coordinates@[0],
                min_y: self.coordinates@[1],
                max_x: self.coordinates@[0],
                max_y: self.coordinates@[1],
            }),
    {
        MBR {
            min_x: self.coordinates.x(),
            max_x: self.coordinates.x(),
            min_y: self.coordinates.y(),
            max_y: self.coordinates.y(),
        }
    }
}

impl<const N: usize, U> Deref for Point<N, U> {
    type Target = [U; N];

    fn deref(&self) -> (r: &Self::Target)
        ensures
            *r == self.coordinates.0,
    {
        &self.coordinates.0
    }
}

impl<const N: usize, U> DerefMut for Point<N, U> {
    fn deref_mut(&mut self) -> (r: &mut Self::Target)
        ensures
            *r == old(self).coordinates.0,
            final(self).coordinates.0 == *final(r),
            final(self).srid == old(self).srid,
    {
        &mut self.coordinates.0
    }
}

} // verus!
