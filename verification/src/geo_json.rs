//! The parts of a GeoJSON geometry: the name of its type and its
//! coordinates. Reading and writing the text is left to the caller.
use crate::types::{
    all_closed, Coordinates, Geometry, GeometryKind, GeometryView, LineString, LineStringZ,
    MultiLineString, MultiLineStringZ, MultiPoint, MultiPointZ, MultiPolygon, MultiPolygonZ,
    Payload, Point, PointZ, Polygon, PolygonZ, Shape, GEOMETRY_COLLECTION_KIND_STR,
    LINE_STRING_KIND_STR, MULTI_LINE_STRING_KIND_STR, MULTI_POINT_KIND_STR, MULTI_POLYGON_KIND_STR,
    POINT_KIND_STR, POLYGON_KIND_STR,
};
use crate::DEFAULT_SRID;
use std::ops::Deref;
use vstd::prelude::*;
use vstd::std_specs::convert::IntoSpec;

verus! {

/// A geometry that is written as, and read from, a GeoJSON object with the
/// members `type` and `coordinates`.
#[derive(Debug, PartialEq, Clone)]
pub struct GeoJsonGeometry(pub Geometry);

impl View for GeoJsonGeometry {
    type V = GeometryView;

    open spec fn view(&self) -> GeometryView {
        self.0@
    }
}

impl GeoJsonGeometry {
    pub fn new<G: Into<Geometry>>(args: G) -> (r: Self)
        ensures
            call_ensures(<G as Into<Geometry>>::into, (args,), r.0),
            G::obeys_into_spec() ==> r.0 == args.into_spec(),
    {
        Self(args.into())
    }
}

impl Deref for GeoJsonGeometry {
    type Target = Geometry;

    fn deref(&self) -> (r: &Self::Target)
        ensures
            *r == self.0,
    {
        &self.0
    }
}

/// The kind that the name of a GeoJSON type stands for, where it is one of
/// the seven names. A name says nothing of the dimensionality: the kind is
/// the one in two dimensions.
pub open spec fn kind_of_name(name: Seq<char>) -> Option<GeometryKind> {
    if name == POINT_KIND_STR@ {
        Some(GeometryKind::Point)
    }     else if name == LINE_STRING_KIND_STR@ {
        Some(GeometryKind::LineString)
    }     else if name == POLYGON_KIND_STR@ {
        Some(GeometryKind::Polygon)
    }     else if name == MULTI_POINT_KIND_STR@ {
        Some(GeometryKind::MultiPoint)
    }     else if name == MULTI_LINE_STRING_KIND_STR@ {
        Some(GeometryKind::MultiLineString)
    }     else if name == MULTI_POLYGON_KIND_STR@ {
        Some(GeometryKind::MultiPolygon)
    }     else if name == GEOMETRY_COLLECTION_KIND_STR@ {
        Some(GeometryKind::GeometryCollection)
    } else {
        None
    }
}

/// The kind that the name of a GeoJSON type stands for, or nothing where the
/// name is none of the seven.
pub fn kind_from_name(name: &str) -> (r: Option<GeometryKind>)
    ensures
        r == kind_of_name(name@),
{
    let name = name.to_owned();
    if name == POINT_KIND_STR.to_owned() {
        Some(GeometryKind::Point)
    }     else if name == LINE_STRING_KIND_STR.to_owned() {
        Some(GeometryKind::LineString)
    }     else if name == POLYGON_KIND_STR.to_owned() {
        Some(GeometryKind::Polygon)
    }     else if name == MULTI_POINT_KIND_STR.to_owned() {
        Some(GeometryKind::MultiPoint)
    }     else if name == MULTI_LINE_STRING_KIND_STR.to_owned() {
        Some(GeometryKind::MultiLineString)
    }     else if name == MULTI_POLYGON_KIND_STR.to_owned() {
        Some(GeometryKind::MultiPolygon)
    }     else if name == GEOMETRY_COLLECTION_KIND_STR.to_owned() {
        Some(GeometryKind::GeometryCollection)
    } else {
        None
    }
}

/// Whether coordinates can be those of a geometry of `kind`: they have the
/// form of its shape and the number of its dimensions.
pub open spec fn compatible(kind: GeometryKind, coordinates: Coordinates) -> bool {
    &&& kind.dimension() == coordinates.dimension()
    &&& match coordinates@ {
        Payload::Tuple(_) => kind.shape() == Shape::Point,
        Payload::Points(_) => kind.shape() == Shape::LineString || kind.shape()
            == Shape::MultiPoint,
        Payload::Rings(_) => kind.shape() == Shape::Polygon || kind.shape()
            == Shape::MultiLineString,
        Payload::Parts(_) => kind.shape() == Shape::MultiPolygon,
    }
}

/// The coordinates as a geometry of `kind` holds them: as they are, but for
/// the rings of a polygon, which are closed.
pub open spec fn held(kind: GeometryKind, payload: Payload) -> Payload {
    match payload {
        Payload::Rings(m) => if kind.shape() == Shape::Polygon {
            Payload::Rings(all_closed(m))
        } else {
            payload
        },
        _ => payload,
    }
}

/// The geometry of `kind` over the coordinates, in the default reference
/// system, or nothing where the coordinates cannot be those of the kind.
pub fn geometry_from_parts(kind: GeometryKind, coordinates: Coordinates) -> (r: Option<Geometry>)
    ensures
        r is Some <==> compatible(kind, coordinates),
        r matches Some(geometry) ==> geometry@ == (GeometryView {
            kind,
            srid: Some(DEFAULT_SRID),
            payload: held(kind, coordinates@),
        }),
{
    match (kind, coordinates) {
        (GeometryKind::Point, Coordinates::Vector2D(a)) => Some(Geometry::Point(Point::new(a))),
        (GeometryKind::LineString, Coordinates::VectorArray2D(a)) => {
            Some(Geometry::LineString(LineString::new(a)))
        },
        (GeometryKind::Polygon, Coordinates::VectorMatrix2D(a)) => {
            Some(Geometry::Polygon(Polygon::new(a)))
        },
        (GeometryKind::MultiPoint, Coordinates::VectorArray2D(a)) => {
            Some(Geometry::MultiPoint(MultiPoint::new(a)))
        },
        (GeometryKind::MultiLineString, Coordinates::VectorMatrix2D(a)) => {
            Some(Geometry::MultiLineString(MultiLineString::new(a)))
        },
        (GeometryKind::MultiPolygon, Coordinates::VectorTensor2D(a)) => {
            Some(Geometry::MultiPolygon(MultiPolygon::new(a)))
        },
        (GeometryKind::PointZ, Coordinates::Vector3D(a)) => Some(Geometry::PointZ(PointZ::new(a))),
        (GeometryKind::LineStringZ, Coordinates::VectorArray3D(a)) => {
            Some(Geometry::LineStringZ(LineStringZ::new(a)))
        },
        (GeometryKind::PolygonZ, Coordinates::VectorMatrix3D(a)) => {
            Some(Geometry::PolygonZ(PolygonZ::new(a)))
        },
        (GeometryKind::MultiPointZ, Coordinates::VectorArray3D(a)) => {
            Some(Geometry::MultiPointZ(MultiPointZ::new(a)))
        },
        (GeometryKind::MultiLineStringZ, Coordinates::VectorMatrix3D(a)) => {
            Some(Geometry::MultiLineStringZ(MultiLineStringZ::new(a)))
        },
        (GeometryKind::MultiPolygonZ, Coordinates::VectorTensor3D(a)) => {
            Some(Geometry::MultiPolygonZ(MultiPolygonZ::new(a)))
        },
        _ => None,
    }
}

} // verus!
