use sql_gis::byte_order::{
    endianess_of_probe, native_endianess, Endianess, BIG_ENDIAN, LITTLE_ENDIAN,
};
use sql_gis::ewkb::{decode_geometry, encode_geometry_with_endianess};
use sql_gis::scalar::{equal, greater, is_not_a_number, INFINITY_BITS, SIGN_BIT};
use sql_gis::types::{Geometry, Point};

#[test]
fn endianess_markers() {
    assert_eq!(BIG_ENDIAN, 0);
    assert_eq!(LITTLE_ENDIAN, 1);
    assert_eq!(Endianess::BigEndian.to_marker(), 0);
    assert_eq!(Endianess::LittleEndian.to_marker(), 1);
    assert_eq!(u8::from(Endianess::BigEndian), 0);
    assert_eq!(u8::from(Endianess::LittleEndian), 1);
    assert_eq!(Endianess::from_marker(0), Some(Endianess::BigEndian));
    assert_eq!(Endianess::from_marker(1), Some(Endianess::LittleEndian));
    for marker in 2..=255u8 {
        assert_eq!(Endianess::from_marker(marker), None);
    }
}

#[test]
fn the_byte_order_that_a_probe_reveals() {
    assert_eq!(endianess_of_probe(u16::from_be_bytes([0, 1])), Endianess::BigEndian);
    assert_eq!(endianess_of_probe(u16::from_le_bytes([0, 1])), Endianess::LittleEndian);
    assert_eq!(endianess_of_probe(1), Endianess::BigEndian);
    assert_eq!(endianess_of_probe(256), Endianess::LittleEndian);
    assert_eq!(endianess_of_probe(u16::from_ne_bytes([0, 1])), native_endianess());
}

#[test]
fn native_endianess_is_that_of_the_machine() {
    let expected = if u16::from_ne_bytes([0, 1]) == 1 {
        Endianess::BigEndian
    } else {
        Endianess::LittleEndian
    };
    assert_eq!(native_endianess(), expected);
}

#[test]
fn every_byte_of_a_number_is_written_in_its_place() {
    let x = 0x0102_0304_0506_0708u64;
    let y = 0xf1f2_f3f4_f5f6_f7f8u64;
    let geometry = Geometry::from(Point::new_with_srid([x, y].into(), 0x0a0b_0c0d));
    let mut big = Vec::new();
    encode_geometry_with_endianess(&geometry, Endianess::BigEndian, &mut big).unwrap();
    assert_eq!(
        big,
        vec![
            0, 0x20, 0, 0, 1, 0x0a, 0x0b, 0x0c, 0x0d, 1, 2, 3, 4, 5, 6, 7, 8, 0xf1, 0xf2, 0xf3,
            0xf4, 0xf5, 0xf6, 0xf7, 0xf8
        ]
    );
    let mut little = Vec::new();
    encode_geometry_with_endianess(&geometry, Endianess::LittleEndian, &mut little).unwrap();
    assert_eq!(
        little,
        vec![
            1, 1, 0, 0, 0x20, 0x0d, 0x0c, 0x0b, 0x0a, 8, 7, 6, 5, 4, 3, 2, 1, 0xf8, 0xf7, 0xf6,
            0xf5, 0xf4, 0xf3, 0xf2, 0xf1
        ]
    );
    assert_eq!(decode_geometry(&big), Ok(geometry.clone()));
    assert_eq!(decode_geometry(&little), Ok(geometry));
}

#[test]
fn every_byte_of_a_number_is_read_from_its_place() {
    let big = [
        0u8, 0x20, 0, 0, 1, 0x0a, 0x0b, 0x0c, 0x0d, 1, 2, 3, 4, 5, 6, 7, 8, 0xf1, 0xf2, 0xf3,
        0xf4, 0xf5, 0xf6, 0xf7, 0xf8,
    ];
    let expected = Geometry::from(Point::new_with_srid(
        [0x0102_0304_0506_0708u64, 0xf1f2_f3f4_f5f6_f7f8u64].into(),
        0x0a0b_0c0d,
    ));
    assert_eq!(decode_geometry(&big), Ok(expected));
    let mut little = big;
    little[0] = 1;
    little[1..5].reverse();
    let expected = Geometry::from(Point::new_with_srid(
        [0x0807_0605_0403_0201u64, 0xf8f7_f6f5_f4f3_f2f1u64].into(),
        0x0d0c_0b0a,
    ));
    assert_eq!(decode_geometry(&little), Ok(expected));
}

fn samples() -> Vec<f64> {
    vec![
        f64::NEG_INFINITY,
        f64::MIN,
        -1e10,
        -1.0,
        -f64::MIN_POSITIVE,
        -5e-324,
        -0.0,
        0.0,
        5e-324,
        f64::MIN_POSITIVE,
        0.5,
        1.0,
        1e10,
        f64::MAX,
        f64::INFINITY,
        f64::NAN,
        -f64::NAN,
        f64::from_bits(0x7ff0_0000_0000_0001),
        f64::from_bits(0xffff_ffff_ffff_ffff),
    ]
}

#[test]
fn float_order_on_bit_patterns() {
    for a in samples() {
        assert_eq!(is_not_a_number(a.to_bits()), a.is_nan());
        for b in samples() {
            assert_eq!(greater(a.to_bits(), b.to_bits()), a > b, "{a} > {b}");
            assert_eq!(equal(a.to_bits(), b.to_bits()), a == b, "{a} == {b}");
        }
    }
}

#[test]
fn float_constants() {
    assert_eq!(SIGN_BIT, (-0.0f64).to_bits());
    assert_eq!(INFINITY_BITS, f64::INFINITY.to_bits());
    assert!(!is_not_a_number(INFINITY_BITS));
    assert!(is_not_a_number(INFINITY_BITS + 1));
    assert!(!is_not_a_number(INFINITY_BITS | SIGN_BIT));
    assert!(greater(1.0f64.to_bits(), (-1.0f64).to_bits()));
    assert!(!greater(0.0f64.to_bits(), (-0.0f64).to_bits()));
    assert!(equal(0.0f64.to_bits(), (-0.0f64).to_bits()));
}
