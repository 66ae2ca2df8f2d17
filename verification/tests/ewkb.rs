use sql_gis::byte_order::Endianess;
use sql_gis::error::Error;
use sql_gis::ewkb::{
    decode_flags, decode_geometry, encode_flags, encode_geometry, encode_geometry_with_endianess,
    EWKBGeometry, Flags,
};
use sql_gis::io::{Decodable, Encodable};
use sql_gis::types::{
    Geometry, GeometryKind, LineString, LineStringZ, MultiLineString, MultiPoint, MultiPolygon,
    Point, PointZ, Polygon, Vector, VectorArray, VectorMatrix, VectorTensor,
};

fn bits(x: f64) -> u64 {
    x.to_bits()
}

fn point(x: f64, y: f64) -> [u64; 2] {
    [bits(x), bits(y)]
}

#[test]
pub fn test_isomorphism_ewkb() {
    let expected = EWKBGeometry::new(Point::new([bits(10.0), bits(20.0)].into()));
    let bytes = expected.encode_to_vec().expect("cannot encode geometry");
    let value = EWKBGeometry::decode_from_slice(&bytes).expect("cannot decode from stream");
    assert_eq!(value, expected)
}

#[test]
fn ewkb_point_without_srid_little_endian_bytes() {
    let mut geometry = Geometry::from(Point::new([bits(10.0), bits(20.0)].into()));
    geometry.set_srid(None);
    let mut bytes = Vec::new();
    encode_geometry_with_endianess(&geometry, Endianess::LittleEndian, &mut bytes)
        .expect("cannot encode geometry");
    let mut expected = vec![0x01u8, 0x01, 0x00, 0x00, 0x00];
    expected.extend_from_slice(&10.0f64.to_le_bytes());
    expected.extend_from_slice(&20.0f64.to_le_bytes());
    assert_eq!(bytes, expected);
    assert_eq!(bytes.len(), 21);
    assert_eq!(&bytes[5..13], &[0, 0, 0, 0, 0, 0, 0x24, 0x40]);
}

#[test]
fn ewkb_point_with_srid_big_endian_bytes() {
    let geometry = Geometry::from(PointZ::new_with_srid(
        [bits(1.0), bits(2.0), bits(3.0)].into(),
        4326,
    ));
    let mut bytes = Vec::new();
    encode_geometry_with_endianess(&geometry, Endianess::BigEndian, &mut bytes)
        .expect("cannot encode geometry");
    let mut expected = vec![0x00u8, 0xa0, 0x00, 0x00, 0x01, 0x00, 0x00, 0x10, 0xe6];
    expected.extend_from_slice(&1.0f64.to_be_bytes());
    expected.extend_from_slice(&2.0f64.to_be_bytes());
    expected.extend_from_slice(&3.0f64.to_be_bytes());
    assert_eq!(bytes, expected);
}

#[test]
fn ewkb_line_string_bytes_hold_the_count() {
    let geometry = Geometry::from(LineString::new_with_srid(
        VectorArray::from([point(1.0, 2.0), point(3.0, 4.0), point(5.0, 6.0)]),
        7,
    ));
    let mut bytes = Vec::new();
    encode_geometry_with_endianess(&geometry, Endianess::LittleEndian, &mut bytes)
        .expect("cannot encode geometry");
    assert_eq!(&bytes[..13], &[1, 2, 0, 0, 0x20, 7, 0, 0, 0, 3, 0, 0, 0]);
    assert_eq!(bytes.len(), 13 + 3 * 16);
}

#[test]
fn ewkb_appends_to_what_the_stream_holds() {
    let geometry = Geometry::from(Point::new([bits(10.0), bits(20.0)].into()));
    let mut bytes = vec![0xaau8, 0xbb];
    encode_geometry_with_endianess(&geometry, Endianess::BigEndian, &mut bytes)
        .expect("cannot encode geometry");
    assert_eq!(&bytes[..3], &[0xaa, 0xbb, 0x00]);
    assert_eq!(bytes.len(), 2 + 1 + 4 + 4 + 16);
}

#[test]
fn ewkb_native_encoding_is_one_of_the_two() {
    let geometry = Geometry::from(Point::new([bits(10.0), bits(20.0)].into()));
    let mut native = Vec::new();
    encode_geometry(&geometry, &mut native).expect("cannot encode geometry");
    let mut big = Vec::new();
    encode_geometry_with_endianess(&geometry, Endianess::BigEndian, &mut big).unwrap();
    let mut little = Vec::new();
    encode_geometry_with_endianess(&geometry, Endianess::LittleEndian, &mut little).unwrap();
    assert!(native == big || native == little);
    if u16::from_ne_bytes([0, 1]) == 1 {
        assert_eq!(native, big);
    } else {
        assert_eq!(native, little);
    }
    assert_eq!(decode_geometry(&native), Ok(geometry));
}

fn samples() -> Vec<Geometry> {
    let ring = [point(0.0, 0.0), point(0.0, 1.0), point(1.0, 1.0), point(1.0, 0.0)];
    let hole = [point(0.25, 0.25), point(0.25, 0.5), point(0.5, 0.5)];
    let line3 = VectorArray::from([
        [bits(1.0), bits(2.0), bits(3.0)],
        [bits(-4.0), bits(5.5), bits(6.0)],
    ]);
    vec![
        Geometry::from(Point::new(point(10.0, 20.0).into())),
        Geometry::from(PointZ::new([bits(1.0), bits(-2.0), bits(3.5)].into())),
        Geometry::from(LineString::new(VectorArray::from([point(1.0, 5.0), point(3.0, 2.0)]))),
        Geometry::from(LineStringZ::new(line3.clone())),
        Geometry::from(Polygon::new(VectorMatrix::from((ring, hole)))),
        Geometry::from(sql_gis::types::PolygonZ::new(VectorMatrix::new(vec![line3.clone()]))),
        Geometry::from(MultiPoint::new(VectorArray::from([point(1.0, 5.0), point(-1.0, 9.0)]))),
        Geometry::from(sql_gis::types::MultiPointZ::new(line3.clone())),
        Geometry::from(MultiLineString::new(VectorMatrix::from((ring, hole, ring)))),
        Geometry::from(sql_gis::types::MultiLineStringZ::new(VectorMatrix::new(vec![
            line3.clone(),
            line3.clone(),
        ]))),
        Geometry::from(MultiPolygon::new(VectorTensor::new(vec![
            VectorMatrix::from((ring, hole)),
            VectorMatrix::from(ring),
        ]))),
        Geometry::from(sql_gis::types::MultiPolygonZ::new(VectorTensor::new(vec![
            VectorMatrix::new(vec![line3.clone()]),
        ]))),
    ]
}

#[test]
fn ewkb_round_trip_of_every_kind_in_both_orders() {
    for geometry in samples() {
        for srid in [None, Some(4326), Some(0), Some(u32::MAX)] {
            let mut geometry = geometry.clone();
            geometry.set_srid(srid);
            for endianess in [Endianess::BigEndian, Endianess::LittleEndian] {
                let mut bytes = Vec::new();
                encode_geometry_with_endianess(&geometry, endianess, &mut bytes).unwrap();
                assert_eq!(decode_geometry(&bytes), Ok(geometry.clone()));
                bytes.extend_from_slice(&[1, 2, 3]);
                assert_eq!(decode_geometry(&bytes), Ok(geometry.clone()));
            }
        }
    }
}

#[test]
fn ewkb_truncated_bytes_are_an_error() {
    for geometry in samples() {
        let mut bytes = Vec::new();
        encode_geometry_with_endianess(&geometry, Endianess::LittleEndian, &mut bytes).unwrap();
        for len in 0..bytes.len() {
            assert_eq!(decode_geometry(&bytes[..len]), Err(Error::UnexpectedEof));
        }
    }
}

#[test]
fn ewkb_unknown_type_code_is_malformed() {
    let mut bytes = vec![0x01u8, 0x99, 0x00, 0x00, 0x00];
    bytes.extend_from_slice(&[0u8; 16]);
    let error = decode_geometry(&bytes).unwrap_err();
    assert_eq!(error, Error::UnknownGeometryCode { code: 0x0000_0099 });
    assert!(error.is_malformed());
    let big = [0x00u8, 0x00, 0x00, 0x00, 0x99];
    assert_eq!(decode_geometry(&big), Err(Error::UnknownGeometryCode { code: 0x99 }));
}

#[test]
fn ewkb_wrong_endianess_marker_is_malformed() {
    let bytes = [0x02u8, 0x01, 0x00, 0x00, 0x00];
    let error = decode_geometry(&bytes).unwrap_err();
    assert_eq!(error, Error::InvalidEndianess { marker: 2 });
    assert!(error.is_malformed());
    assert!(!Error::UnexpectedEof.is_malformed());
}

#[test]
fn ewkb_geometry_collection_is_refused() {
    let bytes = [0x01u8, 0x07, 0x00, 0x00, 0x00, 0, 0, 0, 0];
    assert_eq!(
        decode_geometry(&bytes),
        Err(Error::UnsupportedGeometryKind { kind: GeometryKind::GeometryCollection })
    );
    let bytes = [0x00u8, 0x80, 0x00, 0x00, 0x07];
    assert_eq!(
        decode_geometry(&bytes),
        Err(Error::UnsupportedGeometryKind { kind: GeometryKind::GeometryCollectionZ })
    );
}

#[test]
fn ewkb_flags_and_type_codes() {
    let plain = Flags { kind: GeometryKind::Point, with_srid: false };
    assert_eq!(encode_flags(&plain), 0x0000_0001);
    let with_srid = Flags { kind: GeometryKind::MultiPolygon, with_srid: true };
    assert_eq!(encode_flags(&with_srid), 0x2000_0006);
    let three_d = Flags { kind: GeometryKind::LineStringZ, with_srid: true };
    assert_eq!(encode_flags(&three_d), 0xa000_0002);
    assert_eq!(decode_flags(0xa000_0002), Ok(three_d));
    assert_eq!(decode_flags(0x8000_0007).map(|f| f.kind), Ok(GeometryKind::GeometryCollectionZ));
    assert_eq!(decode_flags(0), Err(Error::UnknownGeometryCode { code: 0 }));
    assert_eq!(decode_flags(8), Err(Error::UnknownGeometryCode { code: 8 }));
    assert_eq!(decode_flags(0x4000_0001), Err(Error::UnknownGeometryCode { code: 0x4000_0001 }));
    assert_eq!(decode_flags(0x2000_0099), Err(Error::UnknownGeometryCode { code: 0x2000_0099 }));
}

#[test]
fn ewkb_flags_of_a_geometry() {
    let mut geometry = Geometry::from(Point::new(point(1.0, 2.0).into()));
    assert_eq!(
        Flags::from_geometry(&geometry),
        Flags { kind: GeometryKind::Point, with_srid: true }
    );
    geometry.set_srid(None);
    assert_eq!(
        Flags::from_geometry(&geometry),
        Flags { kind: GeometryKind::Point, with_srid: false }
    );
}

#[test]
fn ewkb_decoding_closes_the_rings_of_a_polygon() {
    let open_ring = VectorArray::from([point(0.0, 0.0), point(0.0, 1.0), point(1.0, 1.0)]);
    let written = Geometry::Polygon(sql_gis::types::Polygon {
        coordinates: VectorMatrix::new(vec![open_ring.clone()]),
        srid: None,
    });
    let mut bytes = Vec::new();
    encode_geometry_with_endianess(&written, Endianess::BigEndian, &mut bytes).unwrap();
    let mut closed = Polygon::new(VectorMatrix::new(vec![open_ring]));
    closed.srid = None;
    assert_eq!(closed.coordinates.0[0].0.len(), 4);
    assert_eq!(decode_geometry(&bytes), Ok(Geometry::Polygon(closed)));
}

#[test]
fn ewkb_geometry_from_bytes() {
    let expected = EWKBGeometry::from(Geometry::from(Point::new(point(10.0, 20.0).into())));
    let bytes = expected.encode_to_vec().unwrap();
    assert_eq!(EWKBGeometry::try_from(&bytes[..]), Ok(expected.clone()));
    assert_eq!(EWKBGeometry::try_from(&bytes[..3]), Err(Error::UnexpectedEof));
    assert_eq!(Geometry::from(expected.clone()), expected.0);
    assert_eq!(expected.kind(), GeometryKind::Point);
    let mut changed = expected.clone();
    changed.set_srid(Some(3857));
    assert_eq!(changed.srid(), Some(3857));
}

#[test]
fn ewkb_empty_sequences_round_trip() {
    let empty = Geometry::from(LineString::new(VectorArray::new(Vec::<Vector<2, u64>>::new())));
    let mut bytes = Vec::new();
    encode_geometry_with_endianess(&empty, Endianess::LittleEndian, &mut bytes).unwrap();
    assert_eq!(bytes, vec![1, 2, 0, 0, 0x20, 0xe6, 0x10, 0, 0, 0, 0, 0, 0]);
    assert_eq!(decode_geometry(&bytes), Ok(empty));
}
