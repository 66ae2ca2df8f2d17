use sql_gis::byte_order::Endianess;
use sql_gis::error::Error;
use sql_gis::ewkb;
use sql_gis::io::{Decodable, Encodable};
use sql_gis::spatialite::{
    decode_geometry, decode_geometry_class, decode_mbr, encode_geometry, encode_geometry_class,
    encode_geometry_with_endianess, encode_mbr, SpatiaLiteGeometry,
};
use sql_gis::types::{
    Geometry, GeometryKind, LineString, LineStringZ, MultiLineString, MultiLineStringZ, MultiPoint,
    MultiPointZ, MultiPolygon, MultiPolygonZ, Point, PointZ, Polygon, PolygonZ, Vector, VectorArray,
    VectorMatrix, VectorTensor, MBR,
};

fn bits(x: f64) -> u64 {
    x.to_bits()
}

fn point(x: f64, y: f64) -> [u64; 2] {
    [bits(x), bits(y)]
}

#[test]
pub fn test_isomorphism() {
    let expected = SpatiaLiteGeometry::new(Point::new([bits(10.0), bits(20.0)].into()));
    let bytes = expected.encode_to_vec().expect("cannot encode geometry");
    let value = SpatiaLiteGeometry::decode_from_slice(&bytes).expect("cannot decode geometry");
    assert_eq!(value, expected)
}

#[test]
fn spatialite_point_little_endian_bytes() {
    let geometry = Geometry::from(Point::new_with_srid(point(10.0, 20.0).into(), 4326));
    let mut bytes = Vec::new();
    encode_geometry_with_endianess(&geometry, Endianess::LittleEndian, &mut bytes).unwrap();
    let mut expected = vec![0x00u8, 0x01, 0xe6, 0x10, 0x00, 0x00];
    expected.extend_from_slice(&10.0f64.to_le_bytes());
    expected.extend_from_slice(&20.0f64.to_le_bytes());
    expected.extend_from_slice(&10.0f64.to_le_bytes());
    expected.extend_from_slice(&20.0f64.to_le_bytes());
    expected.push(0x7c);
    expected.extend_from_slice(&[0x01, 0x00, 0x00, 0x00]);
    expected.extend_from_slice(&10.0f64.to_le_bytes());
    expected.extend_from_slice(&20.0f64.to_le_bytes());
    expected.push(0xfe);
    assert_eq!(bytes, expected);
    assert_eq!(bytes.len(), 60);
}

#[test]
fn spatialite_line_string_big_endian_bytes() {
    let geometry = Geometry::from(LineStringZ::new_with_srid(
        VectorArray::from([
            [bits(1.0), bits(5.0), bits(7.0)],
            [bits(-1.0), bits(9.0), bits(8.0)],
        ]),
        3857,
    ));
    let mut bytes = Vec::new();
    encode_geometry_with_endianess(&geometry, Endianess::BigEndian, &mut bytes).unwrap();
    let mut expected = vec![0x00u8, 0x00, 0x00, 0x00, 0x0f, 0x11];
    expected.extend_from_slice(&(-1.0f64).to_be_bytes());
    expected.extend_from_slice(&5.0f64.to_be_bytes());
    expected.extend_from_slice(&1.0f64.to_be_bytes());
    expected.extend_from_slice(&9.0f64.to_be_bytes());
    expected.push(0x7c);
    expected.extend_from_slice(&[0x00, 0x00, 0x03, 0xea]);
    expected.extend_from_slice(&[0x00, 0x00, 0x00, 0x02]);
    for scalar in [1.0f64, 5.0, 7.0, -1.0, 9.0, 8.0] {
        expected.extend_from_slice(&scalar.to_be_bytes());
    }
    expected.push(0xfe);
    assert_eq!(bytes, expected);
}

#[test]
fn spatialite_writes_the_default_srid_where_none_is_named() {
    let mut geometry = Geometry::from(Point::new(point(10.0, 20.0).into()));
    geometry.set_srid(None);
    let mut bytes = Vec::new();
    encode_geometry_with_endianess(&geometry, Endianess::BigEndian, &mut bytes).unwrap();
    assert_eq!(&bytes[2..6], &[0x00, 0x00, 0x10, 0xe6]);
    let decoded = decode_geometry(&bytes).unwrap();
    assert_eq!(decoded.srid(), Some(4326));
    geometry.set_srid(Some(4326));
    assert_eq!(decoded, geometry);
}

fn samples() -> Vec<Geometry> {
    let ring = [point(0.0, 0.0), point(0.0, 1.0), point(1.0, 1.0), point(1.0, 0.0)];
    let hole = [point(0.25, 0.25), point(0.25, 0.5), point(0.5, 0.5)];
    let line3 = VectorArray::from([
        [bits(1.0), bits(2.0), bits(3.0)],
        [bits(-4.0), bits(5.5), bits(6.0)],
    ]);
    vec![
        Geometry::from(Point::new(point(10.0, 20.0).into())),
        Geometry::from(PointZ::new([bits(1.0), bits(-2.0), bits(3.5)].into())),
        Geometry::from(LineString::new(VectorArray::from([point(1.0, 5.0), point(3.0, 2.0)]))),
        Geometry::from(LineStringZ::new(line3.clone())),
        Geometry::from(Polygon::new(VectorMatrix::from((ring, hole)))),
        Geometry::from(PolygonZ::new(VectorMatrix::new(vec![line3.clone()]))),
        Geometry::from(MultiPoint::new(VectorArray::from([point(1.0, 5.0), point(-1.0, 9.0)]))),
        Geometry::from(MultiPointZ::new(line3.clone())),
        Geometry::from(MultiLineString::new(VectorMatrix::from((ring, hole, ring)))),
        Geometry::from(MultiLineStringZ::new(VectorMatrix::new(vec![
            line3.clone(),
            line3.clone(),
        ]))),
        Geometry::from(MultiPolygon::new(VectorTensor::new(vec![
            VectorMatrix::from((ring, hole)),
            VectorMatrix::from(ring),
        ]))),
        Geometry::from(MultiPolygonZ::new(VectorTensor::new(vec![VectorMatrix::new(vec![
            line3.clone(),
        ])]))),
    ]
}

#[test]
fn spatialite_round_trip_of_every_kind_in_both_orders() {
    let samples = samples();
    assert_eq!(samples.len(), 12);
    for geometry in samples {
        for srid in [4326, 0, 1, u32::MAX] {
            let mut geometry = geometry.clone();
            geometry.set_srid(Some(srid));
            for endianess in [Endianess::BigEndian, Endianess::LittleEndian] {
                let mut bytes = Vec::new();
                encode_geometry_with_endianess(&geometry, endianess, &mut bytes).unwrap();
                assert_eq!(bytes[0], 0x00);
                assert_eq!(bytes[38], 0x7c);
                assert_eq!(bytes[bytes.len() - 1], 0xfe);
                assert_eq!(decode_geometry(&bytes), Ok(geometry.clone()));
                bytes.extend_from_slice(&[9, 9]);
                assert_eq!(decode_geometry(&bytes), Ok(geometry.clone()));
            }
        }
    }
}

#[test]
fn spatialite_native_encoding_is_one_of_the_two() {
    let geometry = Geometry::from(Point::new(point(10.0, 20.0).into()));
    let mut native = Vec::new();
    encode_geometry(&geometry, &mut native).unwrap();
    let mut big = Vec::new();
    encode_geometry_with_endianess(&geometry, Endianess::BigEndian, &mut big).unwrap();
    let mut little = Vec::new();
    encode_geometry_with_endianess(&geometry, Endianess::LittleEndian, &mut little).unwrap();
    if u16::from_ne_bytes([0, 1]) == 1 {
        assert_eq!(native, big);
    } else {
        assert_eq!(native, little);
    }
}

#[test]
fn the_two_formats_differ_and_both_give_the_geometry_back() {
    for geometry in samples() {
        for endianess in [Endianess::BigEndian, Endianess::LittleEndian] {
            let mut as_ewkb = Vec::new();
            ewkb::encode_geometry_with_endianess(&geometry, endianess, &mut as_ewkb).unwrap();
            let mut as_spatialite = Vec::new();
            encode_geometry_with_endianess(&geometry, endianess, &mut as_spatialite).unwrap();
            assert_ne!(as_ewkb, as_spatialite);
            assert!(as_ewkb.len() < as_spatialite.len());
            assert_eq!(ewkb::decode_geometry(&as_ewkb), Ok(geometry.clone()));
            assert_eq!(decode_geometry(&as_spatialite), Ok(geometry.clone()));
        }
    }
}

#[test]
fn spatialite_truncated_bytes_are_an_error() {
    for geometry in samples() {
        let mut bytes = Vec::new();
        encode_geometry_with_endianess(&geometry, Endianess::BigEndian, &mut bytes).unwrap();
        for len in 0..bytes.len() {
            assert_eq!(decode_geometry(&bytes[..len]), Err(Error::UnexpectedEof));
        }
    }
}

fn encoded_point() -> Vec<u8> {
    let geometry = Geometry::from(Point::new(point(10.0, 20.0).into()));
    let mut bytes = Vec::new();
    encode_geometry_with_endianess(&geometry, Endianess::LittleEndian, &mut bytes).unwrap();
    bytes
}

#[test]
fn spatialite_wrong_start_marker_is_malformed() {
    let mut bytes = encoded_point();
    bytes[0] = 0x01;
    let error = decode_geometry(&bytes).unwrap_err();
    assert_eq!(error, Error::InvalidMarker { expected: 0x00, found: 0x01 });
    assert!(error.is_malformed());
}

#[test]
fn spatialite_wrong_endianess_marker_is_malformed() {
    let mut bytes = encoded_point();
    bytes[1] = 0x07;
    assert_eq!(decode_geometry(&bytes), Err(Error::InvalidEndianess { marker: 7 }));
}

#[test]
fn spatialite_wrong_mbr_end_marker_is_malformed() {
    let mut bytes = encoded_point();
    assert_eq!(bytes[38], 0x7c);
    bytes[38] = 0x7d;
    assert_eq!(
        decode_geometry(&bytes),
        Err(Error::InvalidMarker { expected: 0x7c, found: 0x7d })
    );
}

#[test]
fn spatialite_wrong_end_marker_is_malformed() {
    let mut bytes = encoded_point();
    let last = bytes.len() - 1;
    bytes[last] = 0x00;
    assert_eq!(
        decode_geometry(&bytes),
        Err(Error::InvalidMarker { expected: 0xfe, found: 0x00 })
    );
}

#[test]
fn spatialite_unknown_class_is_malformed() {
    let mut bytes = encoded_point();
    bytes[39] = 0x99;
    let error = decode_geometry(&bytes).unwrap_err();
    assert_eq!(error, Error::UnknownGeometryCode { code: 0x99 });
    assert!(error.is_malformed());
}

#[test]
fn spatialite_geometry_collection_is_refused() {
    let mut bytes = encoded_point();
    bytes[39] = 0x07;
    let error = decode_geometry(&bytes).unwrap_err();
    assert_eq!(error, Error::UnsupportedGeometryKind { kind: GeometryKind::GeometryCollection });
    assert!(error.is_malformed());
    bytes[39] = 0xef;
    bytes[40] = 0x03;
    assert_eq!(
        decode_geometry(&bytes),
        Err(Error::UnsupportedGeometryKind { kind: GeometryKind::GeometryCollectionZ })
    );
}

#[test]
fn spatialite_decoding_leaves_the_written_mbr_aside() {
    let mut bytes = encoded_point();
    for byte in &mut bytes[6..38] {
        *byte = 0xff;
    }
    assert_eq!(
        decode_geometry(&bytes),
        Ok(Geometry::from(Point::new(point(10.0, 20.0).into())))
    );
}

#[test]
fn spatialite_class_codes() {
    let kinds = [
        (GeometryKind::Point, 1),
        (GeometryKind::LineString, 2),
        (GeometryKind::Polygon, 3),
        (GeometryKind::MultiPoint, 4),
        (GeometryKind::MultiLineString, 5),
        (GeometryKind::MultiPolygon, 6),
        (GeometryKind::GeometryCollection, 7),
        (GeometryKind::PointZ, 1001),
        (GeometryKind::LineStringZ, 1002),
        (GeometryKind::PolygonZ, 1003),
        (GeometryKind::MultiPointZ, 1004),
        (GeometryKind::MultiLineStringZ, 1005),
        (GeometryKind::MultiPolygonZ, 1006),
        (GeometryKind::GeometryCollectionZ, 1007),
    ];
    for (kind, code) in kinds {
        assert_eq!(encode_geometry_class(&kind), code);
        assert_eq!(decode_geometry_class(code), Ok(kind));
    }
    for code in [0, 8, 1000, 1008, 10015, 0x8000_0001] {
        assert_eq!(decode_geometry_class(code), Err(Error::UnknownGeometryCode { code }));
    }
}

#[test]
fn spatialite_mbr_bytes() {
    let mbr = MBR { min_x: bits(-1.0), min_y: bits(2.0), max_x: bits(3.0), max_y: bits(9.0) };
    let mut bytes = vec![0x55u8];
    encode_mbr(&mbr, Endianess::BigEndian, &mut bytes);
    let mut expected = vec![0x55u8];
    for scalar in [-1.0f64, 2.0, 3.0, 9.0] {
        expected.extend_from_slice(&scalar.to_be_bytes());
    }
    expected.push(0x7c);
    assert_eq!(bytes, expected);
    assert_eq!(decode_mbr(&bytes, 1, Endianess::BigEndian), Ok((mbr, 34)));
    assert_eq!(decode_mbr(&bytes, 2, Endianess::BigEndian), Err(Error::UnexpectedEof));
    bytes[33] = 0;
    assert_eq!(
        decode_mbr(&bytes, 1, Endianess::BigEndian),
        Err(Error::InvalidMarker { expected: 0x7c, found: 0 })
    );
}

#[test]
fn spatialite_has_no_encoding_without_a_bounding_rectangle() {
    let empty = Geometry::from(LineString::new(VectorArray::new(Vec::<Vector<2, u64>>::new())));
    let mut bytes = vec![1u8, 2, 3];
    assert_eq!(
        encode_geometry_with_endianess(&empty, Endianess::BigEndian, &mut bytes),
        Err(Error::EmptyCoordinates)
    );
    assert_eq!(bytes, vec![1u8, 2, 3]);
    assert_eq!(encode_geometry(&empty, &mut bytes), Err(Error::EmptyCoordinates));
    assert_eq!(SpatiaLiteGeometry::new(empty).encode_to_vec(), Err(Error::EmptyCoordinates));
    let nan = Geometry::from(MultiPoint::new(VectorArray::from([
        point(1.0, 2.0),
        point(f64::NAN, 2.0),
    ])));
    assert_eq!(
        encode_geometry_with_endianess(&nan, Endianess::LittleEndian, &mut bytes),
        Err(Error::NotANumber)
    );
    assert_eq!(bytes, vec![1u8, 2, 3]);
}

#[test]
fn spatialite_geometry_wrapper() {
    let geometry = Geometry::from(Point::new(point(1.0, 2.0).into()));
    let wrapped = SpatiaLiteGeometry::from(geometry.clone());
    assert_eq!(wrapped.kind(), GeometryKind::Point);
    assert_eq!(wrapped.clone().into_geometry(), geometry);
    assert_eq!(Geometry::from(wrapped.clone()), geometry);
    let mut changed = wrapped;
    changed.set_srid(Some(1));
    assert_eq!(changed.srid(), Some(1));
}
