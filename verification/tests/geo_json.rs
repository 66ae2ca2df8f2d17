use sql_gis::auto::{AutoGeometry, DatabaseKind};
use sql_gis::error::Error;
use sql_gis::ewkb::EWKBGeometry;
use sql_gis::geo_json::{geometry_from_parts, kind_from_name, GeoJsonGeometry};
use sql_gis::io::{Decodable, Encodable};
use sql_gis::postgis::PgGeometry;
use sql_gis::spatialite::SpatiaLiteGeometry;
use sql_gis::types::{
    Coordinates, Geometry, GeometryKind, LineString, MultiPoint, Point, PointZ, Polygon, Vector,
    VectorArray, VectorMatrix, VectorTensor,
};

#[test]
fn the_kind_that_a_name_stands_for() {
    assert_eq!(kind_from_name("Point"), Some(GeometryKind::Point));
    assert_eq!(kind_from_name("LineString"), Some(GeometryKind::LineString));
    assert_eq!(kind_from_name("Polygon"), Some(GeometryKind::Polygon));
    assert_eq!(kind_from_name("MultiPoint"), Some(GeometryKind::MultiPoint));
    assert_eq!(kind_from_name("MultiLineString"), Some(GeometryKind::MultiLineString));
    assert_eq!(kind_from_name("MultiPolygon"), Some(GeometryKind::MultiPolygon));
    assert_eq!(kind_from_name("GeometryCollection"), Some(GeometryKind::GeometryCollection));
    assert_eq!(kind_from_name("point"), None);
    assert_eq!(kind_from_name("PointZ"), None);
    assert_eq!(kind_from_name(""), None);
    for kind in [GeometryKind::Point, GeometryKind::MultiPolygon, GeometryKind::LineString] {
        assert_eq!(kind_from_name(kind.as_ref()), Some(kind));
    }
    assert_eq!(kind_from_name(GeometryKind::PolygonZ.as_ref()), Some(GeometryKind::Polygon));
}

#[test]
fn a_geometry_from_its_kind_and_coordinates() {
    let vector = Vector::new([1u64, 2]);
    assert_eq!(
        geometry_from_parts(GeometryKind::Point, Coordinates::Vector2D(vector)),
        Some(Geometry::from(Point::new(vector)))
    );
    let array = VectorArray::from([[1u64, 2], [3, 4]]);
    assert_eq!(
        geometry_from_parts(GeometryKind::LineString, Coordinates::VectorArray2D(array.clone())),
        Some(Geometry::from(LineString::new(array.clone())))
    );
    assert_eq!(
        geometry_from_parts(GeometryKind::MultiPoint, Coordinates::VectorArray2D(array.clone())),
        Some(Geometry::from(MultiPoint::new(array.clone())))
    );
    let matrix = VectorMatrix::new(vec![array.clone()]);
    let polygon =
        geometry_from_parts(GeometryKind::Polygon, Coordinates::VectorMatrix2D(matrix.clone()));
    assert_eq!(polygon, Some(Geometry::from(Polygon::new(matrix))));
    let three = Vector::new([1u64, 2, 3]);
    assert_eq!(
        geometry_from_parts(GeometryKind::PointZ, Coordinates::Vector3D(three)),
        Some(Geometry::from(PointZ::new(three)))
    );
}

#[test]
fn coordinates_that_are_not_those_of_the_kind() {
    let vector = Vector::new([1u64, 2]);
    let array = VectorArray::from([[1u64, 2], [3, 4]]);
    let tensor = VectorTensor::new(vec![VectorMatrix::new(vec![array.clone()])]);
    assert_eq!(geometry_from_parts(GeometryKind::PointZ, Coordinates::Vector2D(vector)), None);
    assert_eq!(geometry_from_parts(GeometryKind::LineString, Coordinates::Vector2D(vector)), None);
    assert_eq!(
        geometry_from_parts(GeometryKind::Point, Coordinates::VectorArray2D(array.clone())),
        None
    );
    assert_eq!(
        geometry_from_parts(GeometryKind::Polygon, Coordinates::VectorTensor2D(tensor.clone())),
        None
    );
    assert_eq!(
        geometry_from_parts(GeometryKind::GeometryCollection, Coordinates::VectorArray2D(array)),
        None
    );
    assert!(geometry_from_parts(GeometryKind::MultiPolygon, Coordinates::VectorTensor2D(tensor))
        .is_some());
}

#[test]
fn the_wrappers_hold_the_geometry() {
    let geometry = Geometry::from(Point::new(Vector::new([1u64, 2])));
    let json = GeoJsonGeometry::new(Point::new(Vector::new([1u64, 2])));
    assert_eq!(json.0, geometry);
    assert_eq!(json.kind().as_ref(), "Point");
    let auto = AutoGeometry::from(geometry.clone());
    assert_eq!(auto.srid(), Some(4326));
    assert_eq!(Geometry::from(auto), geometry);
    let pg = PgGeometry::new(Point::new(Vector::new([1u64, 2])));
    assert_eq!(pg, PgGeometry::from(geometry.clone()));
    let bytes = pg.encode_to_vec().unwrap();
    assert_eq!(bytes.len(), 1 + 4 + 4 + 16);
    assert_eq!(PgGeometry::decode_from_slice(&bytes), Ok(pg));
}

#[test]
fn the_format_is_chosen_by_the_database() {
    let geometry = Geometry::from(Point::new(Vector::new([1u64, 2])));
    let auto = AutoGeometry::from(geometry.clone());
    let for_postgres = auto.encode_for(DatabaseKind::Postgres).unwrap();
    assert_eq!(Ok(for_postgres.clone()), EWKBGeometry::from(geometry.clone()).encode_to_vec());
    assert_eq!(sql_gis::ewkb::decode_geometry(&for_postgres), Ok(geometry.clone()));
    let for_sqlite = auto.encode_for(DatabaseKind::SqlLite).unwrap();
    assert_eq!(Ok(for_sqlite.clone()), SpatiaLiteGeometry::from(geometry.clone()).encode_to_vec());
    assert_eq!(sql_gis::spatialite::decode_geometry(&for_sqlite), Ok(geometry));
    let empty = AutoGeometry::from(Geometry::from(MultiPoint::new(VectorArray::new(vec![]))));
    assert_eq!(empty.encode_for(DatabaseKind::SqlLite), Err(Error::EmptyCoordinates));
    assert_eq!(empty.encode_for(DatabaseKind::Postgres).map(|bytes| bytes.len()), Ok(13));
}
