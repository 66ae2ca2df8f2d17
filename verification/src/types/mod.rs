//! The geometry model: the kinds of geometry, the geometries themselves and
//! their coordinates.
use crate::error::Error;
use crate::scalar::is_nan;
use vstd::prelude::*;
use vstd::std_specs::convert::{FromSpecImpl, TryFromSpecImpl};

mod line_string;
mod mbr;
mod multi_line_string;
mod multi_point;
mod multi_polygon;
mod point;
mod polygon;
mod vectors;

pub use line_string::LineStringCoordinates;
pub use mbr::{mbr_of, MBR};
pub use multi_line_string::MultiLineStringCoordinates;
pub use multi_point::MultiPointCoordinates;
pub use multi_polygon::MultiPolygonCoordinates;
pub use point::PointCoordinates;
pub use polygon::PolygonCoordinates;
pub use vectors::{
    all_closed, all_ok, array_extreme, axis_values, bounds, closable, closed, extreme, extreme_of, has_nan,
    is_closed, lemma_all_ok_error, lemma_all_ok_values, lemma_array_extreme_bounds,
    lemma_close_ring_idempotent, lemma_close_rings_idempotent, lemma_extreme_of_bounds,
    lemma_extreme_of_is_number, lemma_matrix_extreme_bounds, lemma_pick_bounds,
    lemma_tensor_extreme_bounds, matrix_extreme, pick, rings_closed, same_floats, tensor_extreme,
    Vector, VectorArray, VectorMatrix, VectorTensor,
};

verus! {

pub type Vector2D = Vector<2, u64>;

pub type VectorArray2D = VectorArray<2, u64>;

pub type VectorMatrix2D = VectorMatrix<2, u64>;

pub type VectorTensor2D = VectorTensor<2, u64>;

pub type Vector3D = Vector<3, u64>;

pub type VectorArray3D = VectorArray<3, u64>;

pub type VectorMatrix3D = VectorMatrix<3, u64>;

pub type VectorTensor3D = VectorTensor<3, u64>;

pub type Point = point::Point<2, u64>;

pub type LineString = line_string::LineString<2, u64>;

pub type Polygon = polygon::Polygon<2, u64>;

pub type MultiPoint = multi_point::MultiPoint<2, u64>;

pub type MultiLineString = multi_line_string::MultiLineString<2, u64>;

pub type MultiPolygon = multi_polygon::MultiPolygon<2, u64>;

pub type PointZ = point::Point<3, u64>;

pub type LineStringZ = line_string::LineString<3, u64>;

pub type PolygonZ = polygon::Polygon<3, u64>;

pub type MultiPointZ = multi_point::MultiPoint<3, u64>;

pub type MultiLineStringZ = multi_line_string::MultiLineString<3, u64>;

pub type MultiPolygonZ = multi_polygon::MultiPolygon<3, u64>;

/// Every geometry there is: one case for each shape in each dimensionality.
#[derive(Debug, Clone, PartialEq)]
pub enum Geometry {
    Point(Point),
    LineString(LineString),
    Polygon(Polygon),
    MultiPoint(MultiPoint),
    MultiLineString(MultiLineString),
    MultiPolygon(MultiPolygon),
    PointZ(PointZ),
    LineStringZ(LineStringZ),
    PolygonZ(PolygonZ),
    MultiPointZ(MultiPointZ),
    MultiLineStringZ(MultiLineStringZ),
    MultiPolygonZ(MultiPolygonZ),
}

/// The coordinates of a geometry as plain sequences: one of the four shapes
/// that a geometry's coordinates can take.
pub enum Payload {
    /// One coordinate tuple.
    Tuple(Seq<u64>),
    /// A sequence of tuples.
    Points(Seq<Seq<u64>>),
    /// A sequence of point sequences.
    Rings(Seq<Seq<Seq<u64>>>),
    /// A sequence of ring sequences.
    Parts(Seq<Seq<Seq<Seq<u64>>>>),
}

/// A geometry as plain values: its kind, its reference system and its
/// coordinates.
pub struct GeometryView {
    pub kind: GeometryKind,
    pub srid: Option<u32>,
    pub payload: Payload,
}

impl View for Geometry {
    type V = GeometryView;

    open spec fn view(&self) -> GeometryView {
        match *self {
            Geometry::Point(a) => GeometryView {
                kind: GeometryKind::Point,
                srid: a.srid,
                payload: Payload::Tuple(a.coordinates@),
            },
            Geometry::LineString(a) => GeometryView {
                kind: GeometryKind::LineString,
                srid: a.srid,
                payload: Payload::Points(a.coordinates@),
            },
            Geometry::Polygon(a) => GeometryView {
                kind: GeometryKind::Polygon,
                srid: a.srid,
                payload: Payload::Rings(a.coordinates@),
            },
            Geometry::MultiPoint(a) => GeometryView {
                kind: GeometryKind::MultiPoint,
                srid: a.srid,
                payload: Payload::Points(a.coordinates@),
            },
            Geometry::MultiLineString(a) => GeometryView {
                kind: GeometryKind::MultiLineString,
                srid: a.srid,
                payload: Payload::Rings(a.coordinates@),
            },
            Geometry::MultiPolygon(a) => GeometryView {
                kind: GeometryKind::MultiPolygon,
                srid: a.srid,
                payload: Payload::Parts(a.coordinates@),
            },
            Geometry::PointZ(a) => GeometryView {
                kind: GeometryKind::PointZ,
                srid: a.srid,
                payload: Payload::Tuple(a.coordinates@),
            },
            Geometry::LineStringZ(a) => GeometryView {
                kind: GeometryKind::LineStringZ,
                srid: a.srid,
                payload: Payload::Points(a.coordinates@),
            },
            Geometry::PolygonZ(a) => GeometryView {
                kind: GeometryKind::PolygonZ,
                srid: a.srid,
                payload: Payload::Rings(a.coordinates@),
            },
            Geometry::MultiPointZ(a) => GeometryView {
                kind: GeometryKind::MultiPointZ,
                srid: a.srid,
                payload: Payload::Points(a.coordinates@),
            },
            Geometry::MultiLineStringZ(a) => GeometryView {
                kind: GeometryKind::MultiLineStringZ,
                srid: a.srid,
                payload: Payload::Rings(a.coordinates@),
            },
            Geometry::MultiPolygonZ(a) => GeometryView {
                kind: GeometryKind::MultiPolygonZ,
                srid: a.srid,
                payload: Payload::Parts(a.coordinates@),
            },
        }
    }
}

impl Geometry {
    /// Lends the coordinates of the geometry.
    pub fn borrow_coordinates(&self) -> (r: CoordinatesRef<'_>)
        ensures
            r@ == self@.payload,
            r.dimension() == self@.kind.dimension(),
    {
        match self {
            Geometry::Point(a) => CoordinatesRef::Vector2D(&a.coordinates),
            Geometry::LineString(a) => CoordinatesRef::VectorArray2D(&a.coordinates),
            Geometry::Polygon(a) => CoordinatesRef::VectorMatrix2D(&a.coordinates),
            Geometry::MultiPoint(a) => CoordinatesRef::VectorArray2D(&a.coordinates),
            Geometry::MultiLineString(a) => CoordinatesRef::VectorMatrix2D(&a.coordinates),
            Geometry::MultiPolygon(a) => CoordinatesRef::VectorTensor2D(&a.coordinates),
            Geometry::PointZ(a) => CoordinatesRef::Vector3D(&a.coordinates),
            Geometry::LineStringZ(a) => CoordinatesRef::VectorArray3D(&a.coordinates),
            Geometry::PolygonZ(a) => CoordinatesRef::VectorMatrix3D(&a.coordinates),
            Geometry::MultiPointZ(a) => CoordinatesRef::VectorArray3D(&a.coordinates),
            Geometry::MultiLineStringZ(a) => CoordinatesRef::VectorMatrix3D(&a.coordinates),
            Geometry::MultiPolygonZ(a) => CoordinatesRef::VectorTensor3D(&a.coordinates),
        }
    }

    /// The kind of the geometry.
    pub fn kind(&self) -> (k: GeometryKind)
        ensures
            k == self@.kind,
    {
        match self {
            Geometry::Point(_) => GeometryKind::Point,
            Geometry::LineString(_) => GeometryKind::LineString,
            Geometry::Polygon(_) => GeometryKind::Polygon,
            Geometry::MultiPoint(_) => GeometryKind::MultiPoint,
            Geometry::MultiLineString(_) => GeometryKind::MultiLineString,
            Geometry::MultiPolygon(_) => GeometryKind::MultiPolygon,
            Geometry::PointZ(_) => GeometryKind::PointZ,
            Geometry::LineStringZ(_) => GeometryKind::LineStringZ,
            Geometry::PolygonZ(_) => GeometryKind::PolygonZ,
            Geometry::MultiPointZ(_) => GeometryKind::MultiPointZ,
            Geometry::MultiLineStringZ(_) => GeometryKind::MultiLineStringZ,
            Geometry::MultiPolygonZ(_) => GeometryKind::MultiPolygonZ,
        }
    }

    /// The bounding rectangle: that of the coordinates, or an error where a
    /// sequence among them is empty or a coordinate is a NaN. A point is its
    /// own rectangle, whatever it holds.
    pub fn mbr(&self) -> (r: Result<MBR<u64>, Error>)
        ensures
            r == self@.mbr(),
    {
        match self {
            Geometry::Point(a) => Ok(a.mbr()),
            Geometry::LineString(a) => a.mbr(),
            Geometry::Polygon(a) => a.mbr(),
            Geometry::MultiPoint(a) => a.mbr(),
            Geometry::MultiLineString(a) => a.mbr(),
            Geometry::MultiPolygon(a) => a.mbr(),
            Geometry::PointZ(a) => Ok(a.mbr()),
            Geometry::LineStringZ(a) => a.mbr(),
            Geometry::PolygonZ(a) => a.mbr(),
            Geometry::MultiPointZ(a) => a.mbr(),
            Geometry::MultiLineStringZ(a) => a.mbr(),
            Geometry::MultiPolygonZ(a) => a.mbr(),
        }
    }

    /// Names the reference system of the geometry, or leaves it unnamed.
    pub fn set_srid(&mut self, srid: Option<u32>)
        ensures
            final(self)@ == (GeometryView { srid, ..old(self)@ }),
    {
        match self {
            Geometry::Point(a) => a.srid = srid,
            Geometry::LineString(a) => a.srid = srid,
            Geometry::Polygon(a) => a.srid = srid,
            Geometry::MultiPoint(a) => a.srid = srid,
            Geometry::MultiLineString(a) => a.srid = srid,
            Geometry::MultiPolygon(a) => a.srid = srid,
            Geometry::PointZ(a) => a.srid = srid,
            Geometry::LineStringZ(a) => a.srid = srid,
            Geometry::PolygonZ(a) => a.srid = srid,
            Geometry::MultiPointZ(a) => a.srid = srid,
            Geometry::MultiLineStringZ(a) => a.srid = srid,
            Geometry::MultiPolygonZ(a) => a.srid = srid,
        }
    }

    /// The reference system of the geometry, where it names one.
    pub fn srid(&self) -> (r: Option<u32>)
        ensures
            r == self@.srid,
    {
        match self {
            Geometry::Point(a) => a.srid,
            Geometry::LineString(a) => a.srid,
            Geometry::Polygon(a) => a.srid,
            Geometry::MultiPoint(a) => a.srid,
            Geometry::MultiLineString(a) => a.srid,
            Geometry::MultiPolygon(a) => a.srid,
            Geometry::PointZ(a) => a.srid,
            Geometry::LineStringZ(a) => a.srid,
            Geometry::PolygonZ(a) => a.srid,
            Geometry::MultiPointZ(a) => a.srid,
            Geometry::MultiLineStringZ(a) => a.srid,
            Geometry::MultiPolygonZ(a) => a.srid,
        }
    }
}

/// The shape of a geometry, whatever its dimensionality.
#[derive(Debug, Clone, Copy, Eq, PartialEq, Structural)]
pub enum Shape {
    Point,
    LineString,
    Polygon,
    MultiPoint,
    MultiLineString,
    MultiPolygon,
    GeometryCollection,
}

impl GeometryView {
    /// The bounding rectangle of the coordinates.
    pub open spec fn mbr(self) -> Result<MBR<u64>, Error> {
        match self.payload {
            Payload::Tuple(p) => Ok(MBR { min_x: p[0], min_y: p[1], max_x: p[0], max_y: p[1] }),
            Payload::Points(a) => mbr_of(
                array_extreme(a, 0, false),
                array_extreme(a, 0, true),
                array_extreme(a, 1, false),
                array_extreme(a, 1, true),
            ),
            Payload::Rings(m) => mbr_of(
                matrix_extreme(m, 0, false),
                matrix_extreme(m, 0, true),
                matrix_extreme(m, 1, false),
                matrix_extreme(m, 1, true),
            ),
            Payload::Parts(t) => mbr_of(
                tensor_extreme(t, 0, false),
                tensor_extreme(t, 0, true),
                tensor_extreme(t, 1, false),
                tensor_extreme(t, 1, true),
            ),
        }
    }

    /// Whether decoding an encoding of the geometry gives the geometry back
    /// as it is: four bytes can hold the count of each sequence, and the
    /// rings of a polygon are closed.
    pub open spec fn canonical(self) -> bool {
        &&& self.payload.countable()
        &&& self.kind.shape() == Shape::Polygon ==> self.payload is Rings && rings_closed(
            self.payload->Rings_0,
        )
    }

    /// Whether the coordinates have the form that the kind asks for: the
    /// shape of the kind, and in every tuple as many scalars as the kind has
    /// dimensions. Every geometry of the library has this form.
    pub open spec fn well_formed(self) -> bool {
        self.payload.fits(self.kind.shape(), self.kind.dimension())
    }
}

impl Payload {
    /// Whether `p` is one of the coordinate tuples.
    pub open spec fn holds(self, p: Seq<u64>) -> bool {
        match self {
            Payload::Tuple(q) => p == q,
            Payload::Points(a) => exists|i: int| 0 <= i < a.len() && #[trigger] a[i] == p,
            Payload::Rings(m) => exists|i: int, j: int|
                0 <= i < m.len() && 0 <= j < m[i].len() && #[trigger] m[i][j] == p,
            Payload::Parts(t) => exists|i: int, j: int, k: int|
                0 <= i < t.len() && 0 <= j < t[i].len() && 0 <= k < t[i][j].len()
                    && #[trigger] t[i][j][k] == p,
        }
    }

    /// Whether four bytes can hold the count of each sequence.
    pub open spec fn countable(self) -> bool {
        match self {
            Payload::Tuple(_) => true,
            Payload::Points(a) => a.len() <= u32::MAX,
            Payload::Rings(m) => m.len() <= u32::MAX && rings_countable(m),
            Payload::Parts(t) => t.len() <= u32::MAX && parts_countable(t),
        }
    }

    /// Whether the coordinates have the form of `shape` in `dimension`
    /// dimensions.
    pub open spec fn fits(self, shape: Shape, dimension: nat) -> bool {
        match self {
            Payload::Tuple(p) => shape == Shape::Point && p.len() == dimension,
            Payload::Points(a) => {
                &&& shape == Shape::LineString || shape == Shape::MultiPoint
                &&& points_have_arity(a, dimension)
            },
            Payload::Rings(m) => {
                &&& shape == Shape::Polygon || shape == Shape::MultiLineString
                &&& rings_have_arity(m, dimension)
            },
            Payload::Parts(t) => {
                &&& shape == Shape::MultiPolygon
                &&& parts_have_arity(t, dimension)
            },
        }
    }
}

/// Whether four bytes can hold the count of each point sequence.
pub open spec fn rings_countable(m: Seq<Seq<Seq<u64>>>) -> bool {
    forall|i: int| 0 <= i < m.len() ==> (#[trigger] m[i]).len() <= u32::MAX
}

/// Whether four bytes can hold the count of each sequence, at every level.
pub open spec fn parts_countable(t: Seq<Seq<Seq<Seq<u64>>>>) -> bool {
    forall|i: int|
        0 <= i < t.len() ==> (#[trigger] t[i]).len() <= u32::MAX && rings_countable(t[i])
}

/// Whether the rectangle encloses the tuple: its bounds are numbers, the x of
/// the tuple lies between the least and the greatest x, and its y between
/// the least and the greatest y.
pub open spec fn encloses(mbr: MBR<u64>, p: Seq<u64>) -> bool {
    &&& bounds(mbr.min_x, p[0], false)
    &&& bounds(mbr.max_x, p[0], true)
    &&& bounds(mbr.min_y, p[1], false)
    &&& bounds(mbr.max_y, p[1], true)
}

/// The bounding rectangle of a geometry encloses every coordinate tuple of
/// the geometry. For a point this holds as long as its x and y are numbers:
/// a point is its own rectangle, whatever it holds.
pub proof fn lemma_mbr_encloses(g: GeometryView, p: Seq<u64>)
    requires
        g.mbr() is Ok,
        g.payload.holds(p),
        g.payload is Tuple ==> !is_nan(p[0]) && !is_nan(p[1]),
    ensures
        encloses(g.mbr()->Ok_0, p),
{
    match g.payload {
        Payload::Tuple(_) => {},
        Payload::Points(a) => {
            lemma_array_extreme_bounds(a, 0, false);
            lemma_array_extreme_bounds(a, 0, true);
            lemma_array_extreme_bounds(a, 1, false);
            lemma_array_extreme_bounds(a, 1, true);
        },
        Payload::Rings(m) => {
            lemma_matrix_extreme_bounds(m, 0, false);
            lemma_matrix_extreme_bounds(m, 0, true);
            lemma_matrix_extreme_bounds(m, 1, false);
            lemma_matrix_extreme_bounds(m, 1, true);
        },
        Payload::Parts(t) => {
            lemma_tensor_extreme_bounds(t, 0, false);
            lemma_tensor_extreme_bounds(t, 0, true);
            lemma_tensor_extreme_bounds(t, 1, false);
            lemma_tensor_extreme_bounds(t, 1, true);
        },
    }
}

/// Whether every tuple has `dimension` scalars.
pub open spec fn points_have_arity(points: Seq<Seq<u64>>, dimension: nat) -> bool {
    forall|i: int| 0 <= i < points.len() ==> (#[trigger] points[i]).len() == dimension
}

/// Whether every tuple has `dimension` scalars.
pub open spec fn rings_have_arity(rings: Seq<Seq<Seq<u64>>>, dimension: nat) -> bool {
    forall|i: int| 0 <= i < rings.len() ==> points_have_arity(#[trigger] rings[i], dimension)
}

/// Whether every tuple has `dimension` scalars.
pub open spec fn parts_have_arity(parts: Seq<Seq<Seq<Seq<u64>>>>, dimension: nat) -> bool {
    forall|i: int| 0 <= i < parts.len() ==> rings_have_arity(#[trigger] parts[i], dimension)
}

/// The coordinates of every geometry have the form that its kind asks for.
pub proof fn lemma_geometry_well_formed(g: Geometry)
    ensures
        g@.well_formed(),
{
    match g {
        Geometry::Point(a) => {},
        Geometry::LineString(a) => lemma_array_arity(a.coordinates),
        Geometry::Polygon(a) => lemma_matrix_arity(a.coordinates),
        Geometry::MultiPoint(a) => lemma_array_arity(a.coordinates),
        Geometry::MultiLineString(a) => lemma_matrix_arity(a.coordinates),
        Geometry::MultiPolygon(a) => lemma_tensor_arity(a.coordinates),
        Geometry::PointZ(a) => {},
        Geometry::LineStringZ(a) => lemma_array_arity(a.coordinates),
        Geometry::PolygonZ(a) => lemma_matrix_arity(a.coordinates),
        Geometry::MultiPointZ(a) => lemma_array_arity(a.coordinates),
        Geometry::MultiLineStringZ(a) => lemma_matrix_arity(a.coordinates),
        Geometry::MultiPolygonZ(a) => lemma_tensor_arity(a.coordinates),
    }
}

/// Every tuple of a point sequence has as many scalars as its type says.
pub proof fn lemma_array_arity<const N: usize>(a: VectorArray<N, u64>)
    ensures
        points_have_arity(a@, N as nat),
{
}

/// Every tuple of a ring sequence has as many scalars as its type says.
pub proof fn lemma_matrix_arity<const N: usize>(m: VectorMatrix<N, u64>)
    ensures
        rings_have_arity(m@, N as nat),
{
    assert forall|i: int| 0 <= i < m@.len() implies points_have_arity(
        #[trigger] m@[i],
        N as nat,
    ) by {
        lemma_array_arity(m.0@[i]);
    }
}

/// Every tuple of a collection of ring sequences has as many scalars as its
/// type says.
pub proof fn lemma_tensor_arity<const N: usize>(t: VectorTensor<N, u64>)
    ensures
        parts_have_arity(t@, N as nat),
{
    assert forall|i: int| 0 <= i < t@.len() implies rings_have_arity(
        #[trigger] t@[i],
        N as nat,
    ) by {
        lemma_matrix_arity(t.0@[i]);
    }
}

/// The kind of a geometry: its shape and its dimensionality.
#[derive(Debug, Clone, Copy, Eq, PartialEq, Structural)]
pub enum GeometryKind {
    /// 2D point
    Point,
    /// 2D line string
    LineString,
    /// 2D polygon
    Polygon,
    /// 2D set of points
    MultiPoint,
    /// 2D set of line strings
    MultiLineString,
    /// 2D set of polygons
    MultiPolygon,
    /// 2D set of geometries
    GeometryCollection,
    /// 3D point
    PointZ,
    /// 3D line string
    LineStringZ,
    /// 3D polygon
    PolygonZ,
    /// 3D set of points
    MultiPointZ,
    /// 3D set of line strings
    MultiLineStringZ,
    /// 3D set of polygons
    MultiPolygonZ,
    /// 3D set of geometries
    GeometryCollectionZ,
}

pub const POINT_KIND_STR: &'static str = "Point";

pub const LINE_STRING_KIND_STR: &'static str = "LineString";

pub const POLYGON_KIND_STR: &'static str = "Polygon";

pub const MULTI_POINT_KIND_STR: &'static str = "MultiPoint";

pub const MULTI_LINE_STRING_KIND_STR: &'static str = "MultiLineString";

pub const MULTI_POLYGON_KIND_STR: &'static str = "MultiPolygon";

pub const GEOMETRY_COLLECTION_KIND_STR: &'static str = "GeometryCollection";

impl GeometryKind {
    /// The shape of the kind.
    pub open spec fn shape(self) -> Shape {
        match self {
            GeometryKind::Point => Shape::Point,
            GeometryKind::LineString => Shape::LineString,
            GeometryKind::Polygon => Shape::Polygon,
            GeometryKind::MultiPoint => Shape::MultiPoint,
            GeometryKind::MultiLineString => Shape::MultiLineString,
            GeometryKind::MultiPolygon => Shape::MultiPolygon,
            GeometryKind::GeometryCollection => Shape::GeometryCollection,
            GeometryKind::PointZ => Shape::Point,
            GeometryKind::LineStringZ => Shape::LineString,
            GeometryKind::PolygonZ => Shape::Polygon,
            GeometryKind::MultiPointZ => Shape::MultiPoint,
            GeometryKind::MultiLineStringZ => Shape::MultiLineString,
            GeometryKind::MultiPolygonZ => Shape::MultiPolygon,
            GeometryKind::GeometryCollectionZ => Shape::GeometryCollection,
        }
    }

    /// The number of scalars in each coordinate tuple of the kind.
    pub open spec fn dimension(self) -> nat {
        match self {
            GeometryKind::Point => 2,
            GeometryKind::LineString => 2,
            GeometryKind::Polygon => 2,
            GeometryKind::MultiPoint => 2,
            GeometryKind::MultiLineString => 2,
            GeometryKind::MultiPolygon => 2,
            GeometryKind::GeometryCollection => 2,
            GeometryKind::PointZ => 3,
            GeometryKind::LineStringZ => 3,
            GeometryKind::PolygonZ => 3,
            GeometryKind::MultiPointZ => 3,
            GeometryKind::MultiLineStringZ => 3,
            GeometryKind::MultiPolygonZ => 3,
            GeometryKind::GeometryCollectionZ => 3,
        }
    }

    /// The kind of the given shape in the given dimensionality.
    pub open spec fn of(shape: Shape, three_d: bool) -> GeometryKind {
        match shape {
            Shape::Point => if three_d {
                GeometryKind::PointZ
            } else {
                GeometryKind::Point
            },
            Shape::LineString => if three_d {
                GeometryKind::LineStringZ
            } else {
                GeometryKind::LineString
            },
            Shape::Polygon => if three_d {
                GeometryKind::PolygonZ
            } else {
                GeometryKind::Polygon
            },
            Shape::MultiPoint => if three_d {
                GeometryKind::MultiPointZ
            } else {
                GeometryKind::MultiPoint
            },
            Shape::MultiLineString => if three_d {
                GeometryKind::MultiLineStringZ
            } else {
                GeometryKind::MultiLineString
            },
            Shape::MultiPolygon => if three_d {
                GeometryKind::MultiPolygonZ
            } else {
                GeometryKind::MultiPolygon
            },
            Shape::GeometryCollection => if three_d {
                GeometryKind::GeometryCollectionZ
            } else {
                GeometryKind::GeometryCollection
            },
        }
    }

    /// The name of the shape of the kind.
    pub open spec fn name(self) -> Seq<char> {
        match self.shape() {
            Shape::Point => POINT_KIND_STR@,
            Shape::LineString => LINE_STRING_KIND_STR@,
            Shape::Polygon => POLYGON_KIND_STR@,
            Shape::MultiPoint => MULTI_POINT_KIND_STR@,
            Shape::MultiLineString => MULTI_LINE_STRING_KIND_STR@,
            Shape::MultiPolygon => MULTI_POLYGON_KIND_STR@,
            Shape::GeometryCollection => GEOMETRY_COLLECTION_KIND_STR@,
        }
    }
}

impl AsRef<str> for GeometryKind {
    /// The name of the shape of the kind, which is the same in both
    /// dimensionalities.
    fn as_ref(&self) -> (r: &str)
        ensures
            r@ == self.name(),
    {
        match self {
            GeometryKind::Point => POINT_KIND_STR,
            GeometryKind::LineString => LINE_STRING_KIND_STR,
            GeometryKind::Polygon => POLYGON_KIND_STR,
            GeometryKind::MultiPoint => MULTI_POINT_KIND_STR,
            GeometryKind::MultiLineString => MULTI_LINE_STRING_KIND_STR,
            GeometryKind::MultiPolygon => MULTI_POLYGON_KIND_STR,
            GeometryKind::GeometryCollection => GEOMETRY_COLLECTION_KIND_STR,
            GeometryKind::PointZ => POINT_KIND_STR,
            GeometryKind::LineStringZ => LINE_STRING_KIND_STR,
            GeometryKind::PolygonZ => POLYGON_KIND_STR,
            GeometryKind::MultiPointZ => MULTI_POINT_KIND_STR,
            GeometryKind::MultiLineStringZ => MULTI_LINE_STRING_KIND_STR,
            GeometryKind::MultiPolygonZ => MULTI_POLYGON_KIND_STR,
            GeometryKind::GeometryCollectionZ => GEOMETRY_COLLECTION_KIND_STR,
        }
    }
}

impl From<Point> for Geometry {
    fn from(value: Point) -> (r: Self) {
        Self::Point(value)
    }
}

impl FromSpecImpl<Point> for Geometry {
    open spec fn obeys_from_spec() -> bool {
        true
    }

    open spec fn from_spec(value: Point) -> Self {
        Self::Point(value)
    }
}

impl TryFrom<Geometry> for Point {
    type Error = Error;

    fn try_from(value: Geometry) -> (r: Result<Self, Self::Error>) {
        match value {
            Geometry::Point(a) => Ok(a),
            _ => Err(Error::invalid_geometry_kind(GeometryKind::Point, value.kind())),
        }
    }
}

impl TryFromSpecImpl<Geometry> for Point {
    open spec fn obeys_try_from_spec() -> bool {
        true
    }

    open spec fn try_from_spec(value: Geometry) -> Result<Self, Self::Error> {
        match value {
            Geometry::Point(a) => Ok(a),
            _ => Err(
                Error::InvalidGeometryKind { expecting: GeometryKind::Point, got: value@.kind },
            ),
        }
    }
}

impl From<LineString> for Geometry {
    fn from(value: LineString) -> (r: Self) {
        Self::LineString(value)
    }
}

impl FromSpecImpl<LineString> for Geometry {
    open spec fn obeys_from_spec() -> bool {
        true
    }

    open spec fn from_spec(value: LineString) -> Self {
        Self::LineString(value)
    }
}

impl TryFrom<Geometry> for LineString {
    type Error = Error;

    fn try_from(value: Geometry) -> (r: Result<Self, Self::Error>) {
        match value {
            Geometry::LineString(a) => Ok(a),
            _ => Err(Error::invalid_geometry_kind(GeometryKind::LineString, value.kind())),
        }
    }
}

impl TryFromSpecImpl<Geometry> for LineString {
    open spec fn obeys_try_from_spec() -> bool {
        true
    }

    open spec fn try_from_spec(value: Geometry) -> Result<Self, Self::Error> {
        match value {
            Geometry::LineString(a) => Ok(a),
            _ => Err(
                Error::InvalidGeometryKind {
                    expecting: GeometryKind::LineString,
                    got: value@.kind,
                },
            ),
        }
    }
}

impl From<Polygon> for Geometry {
    fn from(value: Polygon) -> (r: Self) {
        Self::Polygon(value)
    }
}

impl FromSpecImpl<Polygon> for Geometry {
    open spec fn obeys_from_spec() -> bool {
        true
    }

    open spec fn from_spec(value: Polygon) -> Self {
        Self::Polygon(value)
    }
}

impl TryFrom<Geometry> for Polygon {
    type Error = Error;

    fn try_from(value: Geometry) -> (r: Result<Self, Self::Error>) {
        match value {
            Geometry::Polygon(a) => Ok(a),
            _ => Err(Error::invalid_geometry_kind(GeometryKind::Polygon, value.kind())),
        }
    }
}

impl TryFromSpecImpl<Geometry> for Polygon {
    open spec fn obeys_try_from_spec() -> bool {
        true
    }

    open spec fn try_from_spec(value: Geometry) -> Result<Self, Self::Error> {
        match value {
            Geometry::Polygon(a) => Ok(a),
            _ => Err(
                Error::InvalidGeometryKind { expecting: GeometryKind::Polygon, got: value@.kind },
            ),
        }
    }
}

impl From<MultiPoint> for Geometry {
    fn from(value: MultiPoint) -> (r: Self) {
        Self::MultiPoint(value)
    }
}

impl FromSpecImpl<MultiPoint> for Geometry {
    open spec fn obeys_from_spec() -> bool {
        true
    }

    open spec fn from_spec(value: MultiPoint) -> Self {
        Self::MultiPoint(value)
    }
}

impl TryFrom<Geometry> for MultiPoint {
    type Error = Error;

    fn try_from(value: Geometry) -> (r: Result<Self, Self::Error>) {
        match value {
            Geometry::MultiPoint(a) => Ok(a),
            _ => Err(Error::invalid_geometry_kind(GeometryKind::MultiPoint, value.kind())),
        }
    }
}

impl TryFromSpecImpl<Geometry> for MultiPoint {
    open spec fn obeys_try_from_spec() -> bool {
        true
    }

    open spec fn try_from_spec(value: Geometry) -> Result<Self, Self::Error> {
        match value {
            Geometry::MultiPoint(a) => Ok(a),
            _ => Err(
                Error::InvalidGeometryKind {
                    expecting: GeometryKind::MultiPoint,
                    got: value@.kind,
                },
            ),
        }
    }
}

impl From<MultiLineString> for Geometry {
    fn from(value: MultiLineString) -> (r: Self) {
        Self::MultiLineString(value)
    }
}

impl FromSpecImpl<MultiLineString> for Geometry {
    open spec fn obeys_from_spec() -> bool {
        true
    }

    open spec fn from_spec(value: MultiLineString) -> Self {
        Self::MultiLineString(value)
    }
}

impl TryFrom<Geometry> for MultiLineString {
    type Error = Error;

    fn try_from(value: Geometry) -> (r: Result<Self, Self::Error>) {
        match value {
            Geometry::MultiLineString(a) => Ok(a),
            _ => Err(Error::invalid_geometry_kind(GeometryKind::MultiLineString, value.kind())),
        }
    }
}

impl TryFromSpecImpl<Geometry> for MultiLineString {
    open spec fn obeys_try_from_spec() -> bool {
        true
    }

    open spec fn try_from_spec(value: Geometry) -> Result<Self, Self::Error> {
        match value {
            Geometry::MultiLineString(a) => Ok(a),
            _ => Err(
                Error::InvalidGeometryKind {
                    expecting: GeometryKind::MultiLineString,
                    got: value@.kind,
                },
            ),
        }
    }
}

impl From<MultiPolygon> for Geometry {
    fn from(value: MultiPolygon) -> (r: Self) {
        Self::MultiPolygon(value)
    }
}

impl FromSpecImpl<MultiPolygon> for Geometry {
    open spec fn obeys_from_spec() -> bool {
        true
    }

    open spec fn from_spec(value: MultiPolygon) -> Self {
        Self::MultiPolygon(value)
    }
}

impl TryFrom<Geometry> for MultiPolygon {
    type Error = Error;

    fn try_from(value: Geometry) -> (r: Result<Self, Self::Error>) {
        match value {
            Geometry::MultiPolygon(a) => Ok(a),
            _ => Err(Error::invalid_geometry_kind(GeometryKind::MultiPolygon, value.kind())),
        }
    }
}

impl TryFromSpecImpl<Geometry> for MultiPolygon {
    open spec fn obeys_try_from_spec() -> bool {
        true
    }

    open spec fn try_from_spec(value: Geometry) -> Result<Self, Self::Error> {
        match value {
            Geometry::MultiPolygon(a) => Ok(a),
            _ => Err(
                Error::InvalidGeometryKind {
                    expecting: GeometryKind::MultiPolygon,
                    got: value@.kind,
                },
            ),
        }
    }
}

impl From<PointZ> for Geometry {
    fn from(value: PointZ) -> (r: Self) {
        Self::PointZ(value)
    }
}

impl FromSpecImpl<PointZ> for Geometry {
    open spec fn obeys_from_spec() -> bool {
        true
    }

    open spec fn from_spec(value: PointZ) -> Self {
        Self::PointZ(value)
    }
}

impl TryFrom<Geometry> for PointZ {
    type Error = Error;

    fn try_from(value: Geometry) -> (r: Result<Self, Self::Error>) {
        match value {
            Geometry::PointZ(a) => Ok(a),
            _ => Err(Error::invalid_geometry_kind(GeometryKind::PointZ, value.kind())),
        }
    }
}

impl TryFromSpecImpl<Geometry> for PointZ {
    open spec fn obeys_try_from_spec() -> bool {
        true
    }

    open spec fn try_from_spec(value: Geometry) -> Result<Self, Self::Error> {
        match value {
            Geometry::PointZ(a) => Ok(a),
            _ => Err(
                Error::InvalidGeometryKind { expecting: GeometryKind::PointZ, got: value@.kind },
            ),
        }
    }
}

impl From<LineStringZ> for Geometry {
    fn from(value: LineStringZ) -> (r: Self) {
        Self::LineStringZ(value)
    }
}

impl FromSpecImpl<LineStringZ> for Geometry {
    open spec fn obeys_from_spec() -> bool {
        true
    }

    open spec fn from_spec(value: LineStringZ) -> Self {
        Self::LineStringZ(value)
    }
}

impl TryFrom<Geometry> for LineStringZ {
    type Error = Error;

    fn try_from(value: Geometry) -> (r: Result<Self, Self::Error>) {
        match value {
            Geometry::LineStringZ(a) => Ok(a),
            _ => Err(Error::invalid_geometry_kind(GeometryKind::LineStringZ, value.kind())),
        }
    }
}

impl TryFromSpecImpl<Geometry> for LineStringZ {
    open spec fn obeys_try_from_spec() -> bool {
        true
    }

    open spec fn try_from_spec(value: Geometry) -> Result<Self, Self::Error> {
        match value {
            Geometry::LineStringZ(a) => Ok(a),
            _ => Err(
                Error::InvalidGeometryKind {
                    expecting: GeometryKind::LineStringZ,
                    got: value@.kind,
                },
            ),
        }
    }
}

impl From<PolygonZ> for Geometry {
    fn from(value: PolygonZ) -> (r: Self) {
        Self::PolygonZ(value)
    }
}

impl FromSpecImpl<PolygonZ> for Geometry {
    open spec fn obeys_from_spec() -> bool {
        true
    }

    open spec fn from_spec(value: PolygonZ) -> Self {
        Self::PolygonZ(value)
    }
}

impl TryFrom<Geometry> for PolygonZ {
    type Error = Error;

    fn try_from(value: Geometry) -> (r: Result<Self, Self::Error>) {
        match value {
            Geometry::PolygonZ(a) => Ok(a),
            _ => Err(Error::invalid_geometry_kind(GeometryKind::PolygonZ, value.kind())),
        }
    }
}

impl TryFromSpecImpl<Geometry> for PolygonZ {
    open spec fn obeys_try_from_spec() -> bool {
        true
    }

    open spec fn try_from_spec(value: Geometry) -> Result<Self, Self::Error> {
        match value {
            Geometry::PolygonZ(a) => Ok(a),
            _ => Err(
                Error::InvalidGeometryKind { expecting: GeometryKind::PolygonZ, got: value@.kind },
            ),
        }
    }
}

impl From<MultiPointZ> for Geometry {
    fn from(value: MultiPointZ) -> (r: Self) {
        Self::MultiPointZ(value)
    }
}

impl FromSpecImpl<MultiPointZ> for Geometry {
    open spec fn obeys_from_spec() -> bool {
        true
    }

    open spec fn from_spec(value: MultiPointZ) -> Self {
        Self::MultiPointZ(value)
    }
}

impl TryFrom<Geometry> for MultiPointZ {
    type Error = Error;

    fn try_from(value: Geometry) -> (r: Result<Self, Self::Error>) {
        match value {
            Geometry::MultiPointZ(a) => Ok(a),
            _ => Err(Error::invalid_geometry_kind(GeometryKind::MultiPointZ, value.kind())),
        }
    }
}

impl TryFromSpecImpl<Geometry> for MultiPointZ {
    open spec fn obeys_try_from_spec() -> bool {
        true
    }

    open spec fn try_from_spec(value: Geometry) -> Result<Self, Self::Error> {
        match value {
            Geometry::MultiPointZ(a) => Ok(a),
            _ => Err(
                Error::InvalidGeometryKind {
                    expecting: GeometryKind::MultiPointZ,
                    got: value@.kind,
                },
            ),
        }
    }
}

impl From<MultiLineStringZ> for Geometry {
    fn from(value: MultiLineStringZ) -> (r: Self) {
        Self::MultiLineStringZ(value)
    }
}

impl FromSpecImpl<MultiLineStringZ> for Geometry {
    open spec fn obeys_from_spec() -> bool {
        true
    }

    open spec fn from_spec(value: MultiLineStringZ) -> Self {
        Self::MultiLineStringZ(value)
    }
}

impl TryFrom<Geometry> for MultiLineStringZ {
    type Error = Error;

    fn try_from(value: Geometry) -> (r: Result<Self, Self::Error>) {
        match value {
            Geometry::MultiLineStringZ(a) => Ok(a),
            _ => Err(Error::invalid_geometry_kind(GeometryKind::MultiLineStringZ, value.kind())),
        }
    }
}

impl TryFromSpecImpl<Geometry> for MultiLineStringZ {
    open spec fn obeys_try_from_spec() -> bool {
        true
    }

    open spec fn try_from_spec(value: Geometry) -> Result<Self, Self::Error> {
        match value {
            Geometry::MultiLineStringZ(a) => Ok(a),
            _ => Err(
                Error::InvalidGeometryKind {
                    expecting: GeometryKind::MultiLineStringZ,
                    got: value@.kind,
                },
            ),
        }
    }
}

impl From<MultiPolygonZ> for Geometry {
    fn from(value: MultiPolygonZ) -> (r: Self) {
        Self::MultiPolygonZ(value)
    }
}

impl FromSpecImpl<MultiPolygonZ> for Geometry {
    open spec fn obeys_from_spec() -> bool {
        true
    }

    open spec fn from_spec(value: MultiPolygonZ) -> Self {
        Self::MultiPolygonZ(value)
    }
}

impl TryFrom<Geometry> for MultiPolygonZ {
    type Error = Error;

    fn try_from(value: Geometry) -> (r: Result<Self, Self::Error>) {
        match value {
            Geometry::MultiPolygonZ(a) => Ok(a),
            _ => Err(Error::invalid_geometry_kind(GeometryKind::MultiPolygonZ, value.kind())),
        }
    }
}

impl TryFromSpecImpl<Geometry> for MultiPolygonZ {
    open spec fn obeys_try_from_spec() -> bool {
        true
    }

    open spec fn try_from_spec(value: Geometry) -> Result<Self, Self::Error> {
        match value {
            Geometry::MultiPolygonZ(a) => Ok(a),
            _ => Err(
                Error::InvalidGeometryKind {
                    expecting: GeometryKind::MultiPolygonZ,
                    got: value@.kind,
                },
            ),
        }
    }
}

/// The coordinates of a geometry.
pub enum Coordinates {
    Vector2D(Vector<2, u64>),
    VectorArray2D(VectorArray<2, u64>),
    VectorMatrix2D(VectorMatrix<2, u64>),
    VectorTensor2D(VectorTensor<2, u64>),
    Vector3D(Vector<3, u64>),
    VectorArray3D(VectorArray<3, u64>),
    VectorMatrix3D(VectorMatrix<3, u64>),
    VectorTensor3D(VectorTensor<3, u64>),
}

impl View for Coordinates {
    type V = Payload;

    open spec fn view(&self) -> Payload {
        match *self {
            Coordinates::Vector2D(a) => Payload::Tuple(a@),
            Coordinates::VectorArray2D(a) => Payload::Points(a@),
            Coordinates::VectorMatrix2D(a) => Payload::Rings(a@),
            Coordinates::VectorTensor2D(a) => Payload::Parts(a@),
            Coordinates::Vector3D(a) => Payload::Tuple(a@),
            Coordinates::VectorArray3D(a) => Payload::Points(a@),
            Coordinates::VectorMatrix3D(a) => Payload::Rings(a@),
            Coordinates::VectorTensor3D(a) => Payload::Parts(a@),
        }
    }
}

impl Coordinates {
    /// The number of scalars in each coordinate tuple.
    pub open spec fn dimension(self) -> nat {
        match self {
            Coordinates::Vector2D(_) => 2,
            Coordinates::VectorArray2D(_) => 2,
            Coordinates::VectorMatrix2D(_) => 2,
            Coordinates::VectorTensor2D(_) => 2,
            Coordinates::Vector3D(_) => 3,
            Coordinates::VectorArray3D(_) => 3,
            Coordinates::VectorMatrix3D(_) => 3,
            Coordinates::VectorTensor3D(_) => 3,
        }
    }
}

/// The coordinates of a geometry, on loan.
pub enum CoordinatesRef<'a> {
    Vector2D(&'a Vector<2, u64>),
    VectorArray2D(&'a VectorArray<2, u64>),
    VectorMatrix2D(&'a VectorMatrix<2, u64>),
    VectorTensor2D(&'a VectorTensor<2, u64>),
    Vector3D(&'a Vector<3, u64>),
    VectorArray3D(&'a VectorArray<3, u64>),
    VectorMatrix3D(&'a VectorMatrix<3, u64>),
    VectorTensor3D(&'a VectorTensor<3, u64>),
}

impl<'a> View for CoordinatesRef<'a> {
    type V = Payload;

    open spec fn view(&self) -> Payload {
        match *self {
            CoordinatesRef::Vector2D(a) => Payload::Tuple(a@),
            CoordinatesRef::VectorArray2D(a) => Payload::Points(a@),
            CoordinatesRef::VectorMatrix2D(a) => Payload::Rings(a@),
            CoordinatesRef::VectorTensor2D(a) => Payload::Parts(a@),
            CoordinatesRef::Vector3D(a) => Payload::Tuple(a@),
            CoordinatesRef::VectorArray3D(a) => Payload::Points(a@),
            CoordinatesRef::VectorMatrix3D(a) => Payload::Rings(a@),
            CoordinatesRef::VectorTensor3D(a) => Payload::Parts(a@),
        }
    }
}

impl<'a> CoordinatesRef<'a> {
    /// The number of scalars in each coordinate tuple.
    pub open spec fn dimension(self) -> nat {
        match self {
            CoordinatesRef::Vector2D(_) => 2,
            CoordinatesRef::VectorArray2D(_) => 2,
            CoordinatesRef::VectorMatrix2D(_) => 2,
            CoordinatesRef::VectorTensor2D(_) => 2,
            CoordinatesRef::Vector3D(_) => 3,
            CoordinatesRef::VectorArray3D(_) => 3,
            CoordinatesRef::VectorMatrix3D(_) => 3,
            CoordinatesRef::VectorTensor3D(_) => 3,
        }
    }
}

impl<'a> TryFrom<CoordinatesRef<'a>> for &'a Vector<2, u64> {
    type Error = Error;

    fn try_from(value: CoordinatesRef<'a>) -> (r: Result<Self, Self::Error>) {
        match value {
            CoordinatesRef::Vector2D(a) => Ok(a),
            _ => Err(Error::InvalidCoordinates),
        }
    }
}

impl<'a> TryFromSpecImpl<CoordinatesRef<'a>> for &'a Vector<2, u64> {
    open spec fn obeys_try_from_spec() -> bool {
        true
    }

    open spec fn try_from_spec(value: CoordinatesRef<'a>) -> Result<Self, Self::Error> {
        match value {
            CoordinatesRef::Vector2D(a) => Ok(a),
            _ => Err(Error::InvalidCoordinates),
        }
    }
}

impl<'a> TryFrom<CoordinatesRef<'a>> for &'a VectorArray<2, u64> {
    type Error = Error;

    fn try_from(value: CoordinatesRef<'a>) -> (r: Result<Self, Self::Error>) {
        match value {
            CoordinatesRef::VectorArray2D(a) => Ok(a),
            _ => Err(Error::InvalidCoordinates),
        }
    }
}

impl<'a> TryFromSpecImpl<CoordinatesRef<'a>> for &'a VectorArray<2, u64> {
    open spec fn obeys_try_from_spec() -> bool {
        true
    }

    open spec fn try_from_spec(value: CoordinatesRef<'a>) -> Result<Self, Self::Error> {
        match value {
            CoordinatesRef::VectorArray2D(a) => Ok(a),
            _ => Err(Error::InvalidCoordinates),
        }
    }
}

impl<'a> TryFrom<CoordinatesRef<'a>> for &'a VectorMatrix<2, u64> {
    type Error = Error;

    fn try_from(value: CoordinatesRef<'a>) -> (r: Result<Self, Self::Error>) {
        match value {
            CoordinatesRef::VectorMatrix2D(a) => Ok(a),
            _ => Err(Error::InvalidCoordinates),
        }
    }
}

impl<'a> TryFromSpecImpl<CoordinatesRef<'a>> for &'a VectorMatrix<2, u64> {
    open spec fn obeys_try_from_spec() -> bool {
        true
    }

    open spec fn try_from_spec(value: CoordinatesRef<'a>) -> Result<Self, Self::Error> {
        match value {
            CoordinatesRef::VectorMatrix2D(a) => Ok(a),
            _ => Err(Error::InvalidCoordinates),
        }
    }
}

impl<'a> TryFrom<CoordinatesRef<'a>> for &'a VectorTensor<2, u64> {
    type Error = Error;

    fn try_from(value: CoordinatesRef<'a>) -> (r: Result<Self, Self::Error>) {
        match value {
            CoordinatesRef::VectorTensor2D(a) => Ok(a),
            _ => Err(Error::InvalidCoordinates),
        }
    }
}

impl<'a> TryFromSpecImpl<CoordinatesRef<'a>> for &'a VectorTensor<2, u64> {
    open spec fn obeys_try_from_spec() -> bool {
        true
    }

    open spec fn try_from_spec(value: CoordinatesRef<'a>) -> Result<Self, Self::Error> {
        match value {
            CoordinatesRef::VectorTensor2D(a) => Ok(a),
            _ => Err(Error::InvalidCoordinates),
        }
    }
}

impl<'a> TryFrom<CoordinatesRef<'a>> for &'a Vector<3, u64> {
    type Error = Error;

    fn try_from(value: CoordinatesRef<'a>) -> (r: Result<Self, Self::Error>) {
        match value {
            CoordinatesRef::Vector3D(a) => Ok(a),
            _ => Err(Error::InvalidCoordinates),
        }
    }
}

impl<'a> TryFromSpecImpl<CoordinatesRef<'a>> for &'a Vector<3, u64> {
    open spec fn obeys_try_from_spec() -> bool {
        true
    }

    open spec fn try_from_spec(value: CoordinatesRef<'a>) -> Result<Self, Self::Error> {
        match value {
            CoordinatesRef::Vector3D(a) => Ok(a),
            _ => Err(Error::InvalidCoordinates),
        }
    }
}

impl<'a> TryFrom<CoordinatesRef<'a>> for &'a VectorArray<3, u64> {
    type Error = Error;

    fn try_from(value: CoordinatesRef<'a>) -> (r: Result<Self, Self::Error>) {
        match value {
            CoordinatesRef::VectorArray3D(a) => Ok(a),
            _ => Err(Error::InvalidCoordinates),
        }
    }
}

impl<'a> TryFromSpecImpl<CoordinatesRef<'a>> for &'a VectorArray<3, u64> {
    open spec fn obeys_try_from_spec() -> bool {
        true
    }

    open spec fn try_from_spec(value: CoordinatesRef<'a>) -> Result<Self, Self::Error> {
        match value {
            CoordinatesRef::VectorArray3D(a) => Ok(a),
            _ => Err(Error::InvalidCoordinates),
        }
    }
}

impl<'a> TryFrom<CoordinatesRef<'a>> for &'a VectorMatrix<3, u64> {
    type Error = Error;

    fn try_from(value: CoordinatesRef<'a>) -> (r: Result<Self, Self::Error>) {
        match value {
            CoordinatesRef::VectorMatrix3D(a) => Ok(a),
            _ => Err(Error::InvalidCoordinates),
        }
    }
}

impl<'a> TryFromSpecImpl<CoordinatesRef<'a>> for &'a VectorMatrix<3, u64> {
    open spec fn obeys_try_from_spec() -> bool {
        true
    }

    open spec fn try_from_spec(value: CoordinatesRef<'a>) -> Result<Self, Self::Error> {
        match value {
            CoordinatesRef::VectorMatrix3D(a) => Ok(a),
            _ => Err(Error::InvalidCoordinates),
        }
    }
}

impl<'a> TryFrom<CoordinatesRef<'a>> for &'a VectorTensor<3, u64> {
    type Error = Error;

    fn try_from(value: CoordinatesRef<'a>) -> (r: Result<Self, Self::Error>) {
        match value {
            CoordinatesRef::VectorTensor3D(a) => Ok(a),
            _ => Err(Error::InvalidCoordinates),
        }
    }
}

impl<'a> TryFromSpecImpl<CoordinatesRef<'a>> for &'a VectorTensor<3, u64> {
    open spec fn obeys_try_from_spec() -> bool {
        true
    }

    open spec fn try_from_spec(value: CoordinatesRef<'a>) -> Result<Self, Self::Error> {
        match value {
            CoordinatesRef::VectorTensor3D(a) => Ok(a),
            _ => Err(Error::InvalidCoordinates),
        }
    }
}

/// The coordinates of a geometry, on loan for change.
pub enum CoordinatesMutRef<'a> {
    Vector2D(&'a mut Vector<2, u64>),
    VectorArray2D(&'a mut VectorArray<2, u64>),
    VectorMatrix2D(&'a mut VectorMatrix<2, u64>),
    VectorTensor2D(&'a mut VectorTensor<2, u64>),
    Vector3D(&'a mut Vector<3, u64>),
    VectorArray3D(&'a mut VectorArray<3, u64>),
    VectorMatrix3D(&'a mut VectorMatrix<3, u64>),
    VectorTensor3D(&'a mut VectorTensor<3, u64>),
}

impl<'a> TryFrom<CoordinatesMutRef<'a>> for &'a mut Vector<2, u64> {
    type Error = Error;

    /// The coordinates themselves, where they have this form.
    fn try_from(value: CoordinatesMutRef<'a>) -> (r: Result<Self, Self::Error>)
        ensures
            r is Ok <==> value is Vector2D,
            r matches Err(error) ==> error == Error::InvalidCoordinates,
            r matches Ok(a) ==> *a == *value->Vector2D_0,
            r matches Ok(a) ==> *final(a) == *final(value->Vector2D_0),
    {
        match value {
            CoordinatesMutRef::Vector2D(a) => Ok(a),
            _ => Err(Error::InvalidCoordinates),
        }
    }
}

impl<'a> TryFromSpecImpl<CoordinatesMutRef<'a>> for &'a mut Vector<2, u64> {
    /// The result is stated by the method itself.
    open spec fn obeys_try_from_spec() -> bool {
        false
    }

    open spec fn try_from_spec(value: CoordinatesMutRef<'a>) -> Result<Self, Self::Error> {
        arbitrary()
    }
}

impl<'a> TryFrom<CoordinatesMutRef<'a>> for &'a mut VectorArray<2, u64> {
    type Error = Error;

    /// The coordinates themselves, where they have this form.
    fn try_from(value: CoordinatesMutRef<'a>) -> (r: Result<Self, Self::Error>)
        ensures
            r is Ok <==> value is VectorArray2D,
            r matches Err(error) ==> error == Error::InvalidCoordinates,
            r matches Ok(a) ==> *a == *value->VectorArray2D_0,
            r matches Ok(a) ==> *final(a) == *final(value->VectorArray2D_0),
    {
        match value {
            CoordinatesMutRef::VectorArray2D(a) => Ok(a),
            _ => Err(Error::InvalidCoordinates),
        }
    }
}

impl<'a> TryFromSpecImpl<CoordinatesMutRef<'a>> for &'a mut VectorArray<2, u64> {
    /// The result is stated by the method itself.
    open spec fn obeys_try_from_spec() -> bool {
        false
    }

    open spec fn try_from_spec(value: CoordinatesMutRef<'a>) -> Result<Self, Self::Error> {
        arbitrary()
    }
}

impl<'a> TryFrom<CoordinatesMutRef<'a>> for &'a mut VectorMatrix<2, u64> {
    type Error = Error;

    /// The coordinates themselves, where they have this form.
    fn try_from(value: CoordinatesMutRef<'a>) -> (r: Result<Self, Self::Error>)
        ensures
            r is Ok <==> value is VectorMatrix2D,
            r matches Err(error) ==> error == Error::InvalidCoordinates,
            r matches Ok(a) ==> *a == *value->VectorMatrix2D_0,
            r matches Ok(a) ==> *final(a) == *final(value->VectorMatrix2D_0),
    {
        match value {
            CoordinatesMutRef::VectorMatrix2D(a) => Ok(a),
            _ => Err(Error::InvalidCoordinates),
        }
    }
}

impl<'a> TryFromSpecImpl<CoordinatesMutRef<'a>> for &'a mut VectorMatrix<2, u64> {
    /// The result is stated by the method itself.
    open spec fn obeys_try_from_spec() -> bool {
        false
    }

    open spec fn try_from_spec(value: CoordinatesMutRef<'a>) -> Result<Self, Self::Error> {
        arbitrary()
    }
}

impl<'a> TryFrom<CoordinatesMutRef<'a>> for &'a mut VectorTensor<2, u64> {
    type Error = Error;

    /// The coordinates themselves, where they have this form.
    fn try_from(value: CoordinatesMutRef<'a>) -> (r: Result<Self, Self::Error>)
        ensures
            r is Ok <==> value is VectorTensor2D,
            r matches Err(error) ==> error == Error::InvalidCoordinates,
            r matches Ok(a) ==> *a == *value->VectorTensor2D_0,
            r matches Ok(a) ==> *final(a) == *final(value->VectorTensor2D_0),
    {
        match value {
            CoordinatesMutRef::VectorTensor2D(a) => Ok(a),
            _ => Err(Error::InvalidCoordinates),
        }
    }
}

impl<'a> TryFromSpecImpl<CoordinatesMutRef<'a>> for &'a mut VectorTensor<2, u64> {
    /// The result is stated by the method itself.
    open spec fn obeys_try_from_spec() -> bool {
        false
    }

    open spec fn try_from_spec(value: CoordinatesMutRef<'a>) -> Result<Self, Self::Error> {
        arbitrary()
    }
}

impl<'a> TryFrom<CoordinatesMutRef<'a>> for &'a mut Vector<3, u64> {
    type Error = Error;

    /// The coordinates themselves, where they have this form.
    fn try_from(value: CoordinatesMutRef<'a>) -> (r: Result<Self, Self::Error>)
        ensures
            r is Ok <==> value is Vector3D,
            r matches Err(error) ==> error == Error::InvalidCoordinates,
            r matches Ok(a) ==> *a == *value->Vector3D_0,
            r matches Ok(a) ==> *final(a) == *final(value->Vector3D_0),
    {
        match value {
            CoordinatesMutRef::Vector3D(a) => Ok(a),
            _ => Err(Error::InvalidCoordinates),
        }
    }
}

impl<'a> TryFromSpecImpl<CoordinatesMutRef<'a>> for &'a mut Vector<3, u64> {
    /// The result is stated by the method itself.
    open spec fn obeys_try_from_spec() -> bool {
        false
    }

    open spec fn try_from_spec(value: CoordinatesMutRef<'a>) -> Result<Self, Self::Error> {
        arbitrary()
    }
}

impl<'a> TryFrom<CoordinatesMutRef<'a>> for &'a mut VectorArray<3, u64> {
    type Error = Error;

    /// The coordinates themselves, where they have this form.
    fn try_from(value: CoordinatesMutRef<'a>) -> (r: Result<Self, Self::Error>)
        ensures
            r is Ok <==> value is VectorArray3D,
            r matches Err(error) ==> error == Error::InvalidCoordinates,
            r matches Ok(a) ==> *a == *value->VectorArray3D_0,
            r matches Ok(a) ==> *final(a) == *final(value->VectorArray3D_0),
    {
        match value {
            CoordinatesMutRef::VectorArray3D(a) => Ok(a),
            _ => Err(Error::InvalidCoordinates),
        }
    }
}

impl<'a> TryFromSpecImpl<CoordinatesMutRef<'a>> for &'a mut VectorArray<3, u64> {
    /// The result is stated by the method itself.
    open spec fn obeys_try_from_spec() -> bool {
        false
    }

    open spec fn try_from_spec(value: CoordinatesMutRef<'a>) -> Result<Self, Self::Error> {
        arbitrary()
    }
}

impl<'a> TryFrom<CoordinatesMutRef<'a>> for &'a mut VectorMatrix<3, u64> {
    type Error = Error;

    /// The coordinates themselves, where they have this form.
    fn try_from(value: CoordinatesMutRef<'a>) -> (r: Result<Self, Self::Error>)
        ensures
            r is Ok <==> value is VectorMatrix3D,
            r matches Err(error) ==> error == Error::InvalidCoordinates,
            r matches Ok(a) ==> *a == *value->VectorMatrix3D_0,
            r matches Ok(a) ==> *final(a) == *final(value->VectorMatrix3D_0),
    {
        match value {
            CoordinatesMutRef::VectorMatrix3D(a) => Ok(a),
            _ => Err(Error::InvalidCoordinates),
        }
    }
}

impl<'a> TryFromSpecImpl<CoordinatesMutRef<'a>> for &'a mut VectorMatrix<3, u64> {
    /// The result is stated by the method itself.
    open spec fn obeys_try_from_spec() -> bool {
        false
    }

    open spec fn try_from_spec(value: CoordinatesMutRef<'a>) -> Result<Self, Self::Error> {
        arbitrary()
    }
}

impl<'a> TryFrom<CoordinatesMutRef<'a>> for &'a mut VectorTensor<3, u64> {
    type Error = Error;

    /// The coordinates themselves, where they have this form.
    fn try_from(value: CoordinatesMutRef<'a>) -> (r: Result<Self, Self::Error>)
        ensures
            r is Ok <==> value is VectorTensor3D,
            r matches Err(error) ==> error == Error::InvalidCoordinates,
            r matches Ok(a) ==> *a == *value->VectorTensor3D_0,
            r matches Ok(a) ==> *final(a) == *final(value->VectorTensor3D_0),
    {
        match value {
            CoordinatesMutRef::VectorTensor3D(a) => Ok(a),
            _ => Err(Error::InvalidCoordinates),
        }
    }
}

impl<'a> TryFromSpecImpl<CoordinatesMutRef<'a>> for &'a mut VectorTensor<3, u64> {
    /// The result is stated by the method itself.
    open spec fn obeys_try_from_spec() -> bool {
        false
    }

    open spec fn try_from_spec(value: CoordinatesMutRef<'a>) -> Result<Self, Self::Error> {
        arbitrary()
    }
}

} // verus!
