use sql_gis::error::Error;
use sql_gis::types::{
    Coordinates, CoordinatesMutRef, CoordinatesRef, Geometry, GeometryKind, LineString, LineStringZ,
    MultiLineString, MultiPoint, MultiPointZ, MultiPolygon, Point, PointZ, Polygon, Vector,
    VectorArray, VectorMatrix, VectorTensor, MBR,
};
use sql_gis::DEFAULT_SRID;

fn bits(x: f64) -> u64 {
    x.to_bits()
}

fn point(x: f64, y: f64) -> [u64; 2] {
    [bits(x), bits(y)]
}

fn floats(mbr: MBR<u64>) -> [f64; 4] {
    [
        f64::from_bits(mbr.min_x),
        f64::from_bits(mbr.min_y),
        f64::from_bits(mbr.max_x),
        f64::from_bits(mbr.max_y),
    ]
}

#[test]
fn vector_scalars() {
    let vector = Vector::new([bits(1.0), bits(2.0), bits(3.0)]);
    assert_eq!(vector.x(), bits(1.0));
    assert_eq!(vector.y(), bits(2.0));
    assert_eq!(vector.z(), bits(3.0));
    assert_eq!(vector, Vector::from([bits(1.0), bits(2.0), bits(3.0)]));
    assert_eq!(vector.len(), 3);
    assert_eq!(vector[2], bits(3.0));
    let mut changed = vector;
    changed[0] = bits(9.0);
    assert_eq!(changed.x(), bits(9.0));
    assert_eq!(vector.x(), bits(1.0));
}

#[test]
fn vectors_are_equal_as_floats() {
    let zero = Vector::new(point(0.0, 1.0));
    let negative_zero = Vector::new(point(-0.0, 1.0));
    assert!(zero.same_point(&negative_zero));
    assert!(zero.same_point(&zero));
    assert!(!zero.same_point(&Vector::new(point(0.0, 2.0))));
    let nan = Vector::new(point(f64::NAN, 1.0));
    assert!(!nan.same_point(&nan));
}

#[test]
fn closing_a_ring_repeats_its_first_point() {
    let ring = [point(0.0, 0.0), point(0.0, 1.0), point(1.0, 1.0), point(1.0, 0.0)];
    let polygon = Polygon::new(VectorMatrix::from(ring));
    assert_eq!(polygon.srid, Some(4326));
    assert_eq!(polygon.coordinates.len(), 1);
    let ring = &polygon.coordinates[0];
    assert_eq!(ring.len(), 5);
    assert_eq!(ring[4], Vector::new(point(0.0, 0.0)));
    assert_eq!(
        *ring,
        VectorArray::from([
            point(0.0, 0.0),
            point(0.0, 1.0),
            point(1.0, 1.0),
            point(1.0, 0.0),
            point(0.0, 0.0),
        ])
    );
}

#[test]
fn closing_a_closed_ring_changes_nothing() {
    let mut ring = VectorArray::from([point(0.0, 0.0), point(0.0, 1.0), point(1.0, 1.0)]);
    ring.close_ring();
    assert_eq!(ring.len(), 4);
    let once = ring.clone();
    ring.close_ring();
    assert_eq!(ring, once);
    let again = Polygon::new(VectorMatrix::new(vec![once.clone()]));
    assert_eq!(again.coordinates, VectorMatrix::new(vec![once]));
}

#[test]
fn closing_a_ring_edge_cases() {
    let mut empty = VectorArray::new(Vec::<Vector<2, u64>>::new());
    empty.close_ring();
    assert_eq!(empty.len(), 0);
    let mut single = VectorArray::from([point(3.0, 4.0)]);
    single.close_ring();
    assert_eq!(single.len(), 1);
    let mut signed_zero = VectorArray::from([point(0.0, 0.0), point(1.0, 1.0), point(-0.0, 0.0)]);
    signed_zero.close_ring();
    assert_eq!(signed_zero.len(), 3);
    let mut nan = VectorArray::from([point(f64::NAN, 0.0), point(1.0, 1.0)]);
    nan.close_ring();
    assert_eq!(nan.len(), 3);
    nan.close_ring();
    assert_eq!(nan.len(), 4);
}

#[test]
fn closing_every_ring_of_a_matrix() {
    let mut matrix = VectorMatrix::from((
        [point(0.0, 0.0), point(0.0, 1.0), point(1.0, 1.0)],
        [point(5.0, 5.0), point(6.0, 6.0), point(5.0, 5.0)],
        [point(7.0, 7.0), point(8.0, 8.0)],
    ));
    matrix.close_rings();
    assert_eq!(matrix[0].len(), 4);
    assert_eq!(matrix[1].len(), 3);
    assert_eq!(matrix[2].len(), 3);
    assert_eq!(matrix[2][2], Vector::new(point(7.0, 7.0)));
}

#[test]
fn mbr_of_a_multi_point() {
    let points = MultiPoint::new(VectorArray::from([
        point(1.0, 5.0),
        point(3.0, 2.0),
        point(-1.0, 9.0),
    ]));
    let mbr = points.mbr().expect("no bounding rectangle");
    assert_eq!(floats(mbr), [-1.0, 2.0, 3.0, 9.0]);
    assert_eq!(points.coordinates.min_x(), Ok(bits(-1.0)));
    assert_eq!(points.coordinates.max_x(), Ok(bits(3.0)));
    assert_eq!(points.coordinates.min_y(), Ok(bits(2.0)));
    assert_eq!(points.coordinates.max_y(), Ok(bits(9.0)));
    assert_eq!(Geometry::from(points).mbr(), Ok(mbr));
}

#[test]
fn mbr_of_a_point_is_the_point() {
    let point = PointZ::new([bits(4.0), bits(-5.0), bits(6.0)].into());
    assert_eq!(floats(point.mbr()), [4.0, -5.0, 4.0, -5.0]);
    assert_eq!(floats(Geometry::from(point).mbr().unwrap()), [4.0, -5.0, 4.0, -5.0]);
}

#[test]
fn mbr_of_nested_sequences() {
    let lines = MultiLineString::new(VectorMatrix::from((
        [point(1.0, 1.0), point(2.0, 8.0)],
        [point(-7.0, 3.0), point(0.5, 0.5)],
    )));
    assert_eq!(floats(lines.mbr().unwrap()), [-7.0, 0.5, 2.0, 8.0]);
    let polygons = MultiPolygon::new(VectorTensor::new(vec![
        VectorMatrix::from([point(0.0, 0.0), point(4.0, 0.0), point(4.0, 4.0)]),
        VectorMatrix::from((
            [point(10.0, -3.0), point(11.0, 2.0)],
            [point(-2.0, 1.0), point(1.0, 12.0)],
        )),
    ]));
    assert_eq!(floats(polygons.mbr().unwrap()), [-2.0, -3.0, 11.0, 12.0]);
    assert_eq!(polygons.coordinates.min_x(), Ok(bits(-2.0)));
    assert_eq!(polygons.coordinates.max_x(), Ok(bits(11.0)));
    assert_eq!(polygons.coordinates.min_y(), Ok(bits(-3.0)));
    assert_eq!(polygons.coordinates.max_y(), Ok(bits(12.0)));
    let line = LineStringZ::new(VectorArray::from([
        [bits(1.0), bits(2.0), bits(300.0)],
        [bits(0.0), bits(5.0), bits(-300.0)],
    ]));
    assert_eq!(floats(line.mbr().unwrap()), [0.0, 2.0, 1.0, 5.0]);
}

#[test]
fn mbr_orders_floats_and_not_bit_patterns() {
    let line = LineString::new(VectorArray::from([
        point(-1.0, -0.5),
        point(-2.0, 1e300),
        point(1e-300, -1e300),
        point(f64::NEG_INFINITY, f64::INFINITY),
    ]));
    assert_eq!(
        floats(line.mbr().unwrap()),
        [f64::NEG_INFINITY, -1e300, 1e-300, f64::INFINITY]
    );
}

#[test]
fn mbr_takes_the_first_least_and_the_last_greatest_of_equals() {
    let zeros = VectorArray::from([point(0.0, -0.0), point(-0.0, 0.0)]);
    assert_eq!(zeros.min_x(), Ok(bits(0.0)));
    assert_eq!(zeros.max_x(), Ok(bits(-0.0)));
    assert_eq!(zeros.min_y(), Ok(bits(-0.0)));
    assert_eq!(zeros.max_y(), Ok(bits(0.0)));
    assert_eq!(zeros.extreme(0, false), Ok(bits(0.0)));
    assert_eq!(zeros.extreme(1, true), Ok(bits(0.0)));
}

#[test]
fn mbr_of_nothing_is_an_error() {
    let empty = VectorArray::new(Vec::<Vector<2, u64>>::new());
    assert_eq!(empty.min_x(), Err(Error::EmptyCoordinates));
    assert_eq!(empty.max_y(), Err(Error::EmptyCoordinates));
    assert_eq!(LineString::new(empty.clone()).mbr(), Err(Error::EmptyCoordinates));
    let no_rings = VectorMatrix::new(Vec::<VectorArray<2, u64>>::new());
    assert_eq!(no_rings.min_x(), Err(Error::EmptyCoordinates));
    let empty_ring = VectorMatrix::new(vec![VectorArray::from([point(1.0, 1.0)]), empty]);
    assert_eq!(empty_ring.max_x(), Err(Error::EmptyCoordinates));
    let no_parts = VectorTensor::new(Vec::<VectorMatrix<2, u64>>::new());
    assert_eq!(no_parts.min_y(), Err(Error::EmptyCoordinates));
    assert_eq!(
        VectorTensor::new(vec![no_rings]).min_y(),
        Err(Error::EmptyCoordinates)
    );
    assert!(!Error::EmptyCoordinates.is_malformed());
}

#[test]
fn mbr_of_a_nan_is_an_error() {
    let nan_x = VectorArray::from([point(1.0, 2.0), point(f64::NAN, 3.0)]);
    assert_eq!(nan_x.min_x(), Err(Error::NotANumber));
    assert_eq!(nan_x.max_x(), Err(Error::NotANumber));
    assert_eq!(nan_x.min_y(), Ok(bits(2.0)));
    assert_eq!(MultiPoint::new(nan_x.clone()).mbr(), Err(Error::NotANumber));
    let single = VectorArray::from([point(1.0, -f64::NAN)]);
    assert_eq!(single.max_y(), Err(Error::NotANumber));
    let nested = VectorMatrix::new(vec![VectorArray::from([point(0.0, 0.0)]), nan_x]);
    assert_eq!(nested.min_x(), Err(Error::NotANumber));
    assert_eq!(nested.min_y(), Ok(bits(0.0)));
    let first_error = VectorMatrix::new(vec![
        VectorArray::new(Vec::<Vector<2, u64>>::new()),
        VectorArray::from([point(f64::NAN, 0.0)]),
    ]);
    assert_eq!(first_error.min_x(), Err(Error::EmptyCoordinates));
    assert!(!Error::NotANumber.is_malformed());
}

#[test]
fn narrowing_to_another_shape_is_a_kind_mismatch() {
    let line = Geometry::from(LineString::new(VectorArray::from([
        point(1.0, 2.0),
        point(3.0, 4.0),
    ])));
    let error = Point::try_from(line.clone()).unwrap_err();
    assert_eq!(
        error,
        Error::InvalidGeometryKind {
            expecting: GeometryKind::Point,
            got: GeometryKind::LineString,
        }
    );
    assert!(!error.is_malformed());
    assert_eq!(
        error,
        Error::invalid_geometry_kind(GeometryKind::Point, GeometryKind::LineString)
    );
    assert_eq!(
        PointZ::try_from(line.clone()),
        Err(Error::InvalidGeometryKind {
            expecting: GeometryKind::PointZ,
            got: GeometryKind::LineString,
        })
    );
    assert_eq!(
        MultiPoint::try_from(line.clone()),
        Err(Error::InvalidGeometryKind {
            expecting: GeometryKind::MultiPoint,
            got: GeometryKind::LineString,
        })
    );
    let narrowed = LineString::try_from(line).expect("a line string");
    assert_eq!(narrowed.coordinates.len(), 2);
}

#[test]
fn narrowing_a_decoded_line_string() {
    let line = Geometry::from(LineString::new(VectorArray::from([
        point(1.0, 2.0),
        point(3.0, 4.0),
    ])));
    let mut bytes = Vec::new();
    sql_gis::ewkb::encode_geometry(&line, &mut bytes).unwrap();
    let decoded = sql_gis::ewkb::decode_geometry(&bytes).unwrap();
    assert_eq!(
        Point::try_from(decoded),
        Err(Error::InvalidGeometryKind {
            expecting: GeometryKind::Point,
            got: GeometryKind::LineString,
        })
    );
}

#[test]
fn the_kind_of_every_geometry() {
    let line3 = VectorArray::from([[bits(1.0), bits(2.0), bits(3.0)]]);
    let geometries = [
        (Geometry::from(Point::new(point(1.0, 2.0).into())), GeometryKind::Point, "Point"),
        (
            Geometry::from(MultiPoint::new(VectorArray::from([point(1.0, 2.0)]))),
            GeometryKind::MultiPoint,
            "MultiPoint",
        ),
        (
            Geometry::from(MultiPointZ::new(line3.clone())),
            GeometryKind::MultiPointZ,
            "MultiPoint",
        ),
        (
            Geometry::from(LineStringZ::new(line3.clone())),
            GeometryKind::LineStringZ,
            "LineString",
        ),
        (
            Geometry::from(Polygon::new(VectorMatrix::from([point(1.0, 2.0)]))),
            GeometryKind::Polygon,
            "Polygon",
        ),
        (
            Geometry::from(MultiLineString::new(VectorMatrix::from([point(1.0, 2.0)]))),
            GeometryKind::MultiLineString,
            "MultiLineString",
        ),
        (
            Geometry::from(MultiPolygon::new(VectorTensor::from([point(1.0, 2.0)]))),
            GeometryKind::MultiPolygon,
            "MultiPolygon",
        ),
    ];
    for (geometry, kind, name) in geometries {
        assert_eq!(geometry.kind(), kind);
        assert_eq!(geometry.kind().as_ref(), name);
    }
    assert_eq!(GeometryKind::GeometryCollectionZ.as_ref(), "GeometryCollection");
}

#[test]
fn the_srid_of_a_geometry() {
    assert_eq!(DEFAULT_SRID, 4326);
    let mut geometry = Geometry::from(Point::new(point(1.0, 2.0).into()));
    assert_eq!(geometry.srid(), Some(4326));
    geometry.set_srid(Some(3857));
    assert_eq!(geometry.srid(), Some(3857));
    assert_eq!(geometry.kind(), GeometryKind::Point);
    geometry.set_srid(None);
    assert_eq!(geometry.srid(), None);
    assert_eq!(
        geometry,
        Geometry::Point(Point { coordinates: point(1.0, 2.0).into(), srid: None })
    );
    let line = LineString::new_with_srid(VectorArray::from([point(1.0, 2.0)]), 27700);
    assert_eq!(Geometry::from(line).srid(), Some(27700));
    let polygon = Polygon::new_with_srid(
        VectorMatrix::from([point(0.0, 0.0), point(1.0, 0.0), point(1.0, 1.0)]),
        2154,
    );
    assert_eq!(polygon.srid, Some(2154));
    assert_eq!(polygon.coordinates[0].len(), 4);
}

#[test]
fn borrowing_the_coordinates() {
    let geometry = Geometry::from(LineStringZ::new(VectorArray::from([[
        bits(1.0),
        bits(2.0),
        bits(3.0),
    ]])));
    match geometry.borrow_coordinates() {
        CoordinatesRef::VectorArray3D(array) => assert_eq!(array[0].z(), bits(3.0)),
        _ => panic!("not an array of 3D vectors"),
    }
    let point = Geometry::from(Point::new(point(1.0, 2.0).into()));
    assert!(matches!(point.borrow_coordinates(), CoordinatesRef::Vector2D(_)));
    let owned = Coordinates::Vector2D(Vector::new([bits(1.0), bits(2.0)]));
    assert!(matches!(owned, Coordinates::Vector2D(v) if v.y() == bits(2.0)));
}

#[test]
fn sequences_from_vectors_of_arrays() {
    let array = VectorArray::from_vec(vec![point(1.0, 2.0), point(3.0, 4.0)]);
    assert_eq!(array, VectorArray::from([point(1.0, 2.0), point(3.0, 4.0)]));
    let matrix = VectorMatrix::from_vec(vec![vec![point(1.0, 2.0)], vec![], vec![point(3.0, 4.0)]]);
    assert_eq!(matrix.len(), 3);
    assert_eq!(matrix[0], VectorArray::from([point(1.0, 2.0)]));
    assert_eq!(matrix[1].len(), 0);
    assert_eq!(matrix[2][0].x(), bits(3.0));
    let tensor = VectorTensor::from_vec(vec![vec![vec![point(1.0, 2.0)]], vec![]]);
    assert_eq!(tensor.len(), 2);
    assert_eq!(tensor[0], VectorMatrix::from([point(1.0, 2.0)]));
    assert_eq!(tensor[1].len(), 0);
    let four = VectorMatrix::from((
        [point(1.0, 1.0)],
        [point(2.0, 2.0), point(2.5, 2.5)],
        [point(3.0, 3.0)],
        [point(4.0, 4.0)],
    ));
    assert_eq!(four.len(), 4);
    assert_eq!(four[1].len(), 2);
    assert_eq!(four[3][0].y(), bits(4.0));
}

#[test]
fn narrowing_borrowed_coordinates() {
    let geometry = Geometry::from(LineString::new(VectorArray::from([point(1.0, 2.0)])));
    let array: &VectorArray<2, u64> =
        geometry.borrow_coordinates().try_into().expect("an array of 2D vectors");
    assert_eq!(array.len(), 1);
    let as_vector: Result<&Vector<2, u64>, Error> = geometry.borrow_coordinates().try_into();
    assert_eq!(as_vector, Err(Error::InvalidCoordinates));
    let as_3d: Result<&VectorArray<3, u64>, Error> = geometry.borrow_coordinates().try_into();
    assert_eq!(as_3d, Err(Error::InvalidCoordinates));
    let as_matrix: Result<&VectorMatrix<2, u64>, Error> =
        geometry.borrow_coordinates().try_into();
    assert_eq!(as_matrix, Err(Error::InvalidCoordinates));
    let as_tensor: Result<&VectorTensor<2, u64>, Error> =
        geometry.borrow_coordinates().try_into();
    assert_eq!(as_tensor, Err(Error::InvalidCoordinates));
    assert!(!Error::InvalidCoordinates.is_malformed());
}

#[test]
fn narrowing_coordinates_on_loan_for_change() {
    let mut vector = Vector::new(point(1.0, 2.0));
    {
        let narrowed: &mut Vector<2, u64> =
            CoordinatesMutRef::Vector2D(&mut vector).try_into().expect("a 2D vector");
        narrowed[0] = bits(5.0);
    }
    assert_eq!(vector.x(), bits(5.0));
    let wrong: Result<&mut VectorArray<2, u64>, Error> =
        CoordinatesMutRef::Vector2D(&mut vector).try_into();
    assert_eq!(wrong.err(), Some(Error::InvalidCoordinates));
    let mut matrix = VectorMatrix::from([point(1.0, 2.0), point(3.0, 4.0)]);
    {
        let narrowed: &mut VectorMatrix<2, u64> =
            CoordinatesMutRef::VectorMatrix2D(&mut matrix).try_into().expect("a matrix");
        narrowed[0].close_ring();
    }
    assert_eq!(matrix[0].len(), 3);
}

#[test]
fn changing_a_point_in_place() {
    let mut point = Point::new(Vector::new(point(1.0, 2.0)));
    point[1] = bits(7.0);
    assert_eq!(point.coordinates.y(), bits(7.0));
    assert_eq!(point.len(), 2);
    assert_eq!(point.srid, Some(4326));
}
