use sql_gis::byte_order::Endianess;
use sql_gis::error::Error;
use sql_gis::payload::{
    decode_array, decode_coordinates, decode_matrix, decode_tensor, decode_vector, encode_array,
    encode_coordinates, encode_matrix, encode_tensor, encode_vector,
};
use sql_gis::types::{
    CoordinatesRef, Geometry, GeometryKind, MultiLineString, Polygon, Vector, VectorArray,
    VectorMatrix, VectorTensor,
};

#[test]
fn a_tuple_is_written_without_a_count() {
    let vector = Vector::new([1u64, 2, 0xff00]);
    let mut bytes = vec![7u8];
    encode_vector(&vector, Endianess::BigEndian, &mut bytes);
    assert_eq!(
        bytes,
        vec![7, 0, 0, 0, 0, 0, 0, 0, 1, 0, 0, 0, 0, 0, 0, 0, 2, 0, 0, 0, 0, 0, 0, 0xff, 0]
    );
    assert_eq!(decode_vector::<3>(&bytes, 1, Endianess::BigEndian), Some((vector, 25)));
    assert_eq!(decode_vector::<3>(&bytes, 2, Endianess::BigEndian), None);
    assert_eq!(
        decode_vector::<2>(&bytes, 1, Endianess::LittleEndian),
        Some((Vector::new([1u64 << 56, 2u64 << 56]), 17))
    );
    assert_eq!(decode_vector::<0>(&bytes, 25, Endianess::BigEndian), Some((Vector::new([]), 25)));
}

#[test]
fn a_sequence_is_written_after_its_count() {
    let array = VectorArray::from([[1u64, 2], [3, 4]]);
    let mut bytes = Vec::new();
    encode_array(&array, Endianess::LittleEndian, &mut bytes);
    assert_eq!(bytes.len(), 4 + 2 * 16);
    assert_eq!(&bytes[..12], &[2, 0, 0, 0, 1, 0, 0, 0, 0, 0, 0, 0]);
    assert_eq!(decode_array::<2>(&bytes, 0, Endianess::LittleEndian), Some((array.clone(), 36)));
    assert_eq!(decode_array::<2>(&bytes[..35], 0, Endianess::LittleEndian), None);
    assert_eq!(decode_array::<2>(&bytes, 0, Endianess::BigEndian), None);

    let matrix = VectorMatrix::new(vec![array.clone(), VectorArray::new(vec![]), array.clone()]);
    let mut bytes = vec![0xeeu8; 3];
    encode_matrix(&matrix, Endianess::BigEndian, &mut bytes);
    assert_eq!(bytes.len(), 3 + 4 + 36 + 4 + 36);
    assert_eq!(&bytes[3..11], &[0, 0, 0, 3, 0, 0, 0, 2]);
    assert_eq!(&bytes[43..47], &[0, 0, 0, 0]);
    assert_eq!(decode_matrix::<2>(&bytes, 3, Endianess::BigEndian), Some((matrix.clone(), 83)));
    assert_eq!(decode_matrix::<2>(&bytes[..82], 3, Endianess::BigEndian), None);

    let tensor = VectorTensor::new(vec![matrix.clone(), VectorMatrix::new(vec![])]);
    let mut bytes = Vec::new();
    encode_tensor(&tensor, Endianess::LittleEndian, &mut bytes);
    assert_eq!(bytes.len(), 4 + 80 + 4);
    assert_eq!(&bytes[..8], &[2, 0, 0, 0, 3, 0, 0, 0]);
    assert_eq!(decode_tensor::<2>(&bytes, 0, Endianess::LittleEndian), Some((tensor, 88)));
    assert_eq!(decode_tensor::<2>(&bytes[..87], 0, Endianess::LittleEndian), None);
}

#[test]
fn a_count_beyond_the_bytes_is_a_truncation() {
    let bytes = [0xffu8, 0xff, 0xff, 0xff, 0, 0, 0, 0, 0, 0, 0, 0, 0, 0, 0, 0, 0, 0, 0, 0];
    assert_eq!(decode_array::<2>(&bytes, 0, Endianess::BigEndian), None);
    assert_eq!(decode_matrix::<2>(&bytes, 0, Endianess::BigEndian), None);
    assert_eq!(decode_tensor::<3>(&bytes, 0, Endianess::LittleEndian), None);
    assert_eq!(
        decode_coordinates(GeometryKind::MultiPolygonZ, &bytes, 0, Endianess::BigEndian),
        Err(Error::UnexpectedEof)
    );
}

#[test]
fn the_coordinates_of_each_shape() {
    let array = VectorArray::from([[1u64, 2], [3, 4], [1, 2]]);
    let mut bytes = Vec::new();
    encode_coordinates(CoordinatesRef::VectorArray2D(&array), Endianess::BigEndian, &mut bytes);
    let mut as_array = Vec::new();
    encode_array(&array, Endianess::BigEndian, &mut as_array);
    assert_eq!(bytes, as_array);
    let (geometry, next) =
        decode_coordinates(GeometryKind::MultiPoint, &bytes, 0, Endianess::BigEndian).unwrap();
    assert_eq!(next, bytes.len());
    assert_eq!(geometry.kind(), GeometryKind::MultiPoint);
    assert_eq!(geometry.srid(), Some(4326));
    let (geometry, _) =
        decode_coordinates(GeometryKind::LineString, &bytes, 0, Endianess::BigEndian).unwrap();
    assert_eq!(geometry.kind(), GeometryKind::LineString);

    let matrix = VectorMatrix::new(vec![VectorArray::from([[1u64, 2], [3, 4]])]);
    let mut bytes = Vec::new();
    let coordinates = CoordinatesRef::VectorMatrix2D(&matrix);
    encode_coordinates(coordinates, Endianess::LittleEndian, &mut bytes);
    let (lines, _) =
        decode_coordinates(GeometryKind::MultiLineString, &bytes, 0, Endianess::LittleEndian)
            .unwrap();
    assert_eq!(lines, Geometry::MultiLineString(MultiLineString::new(matrix.clone())));
    let (polygon, _) =
        decode_coordinates(GeometryKind::Polygon, &bytes, 0, Endianess::LittleEndian).unwrap();
    assert_eq!(polygon, Geometry::Polygon(Polygon::new(matrix)));
    match polygon {
        Geometry::Polygon(polygon) => assert_eq!(polygon.coordinates[0].len(), 3),
        _ => panic!("not a polygon"),
    }
    assert_eq!(
        decode_coordinates(GeometryKind::GeometryCollection, &bytes, 0, Endianess::BigEndian),
        Err(Error::UnsupportedGeometryKind { kind: GeometryKind::GeometryCollection })
    );
}
