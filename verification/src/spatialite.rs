//! The native geometry format of SpatiaLite.
//!
//! An encoded geometry stands between a start byte and an end byte. After the
//! start come a marker byte for the byte order, the reference system, the
//! bounding rectangle with a byte that ends it, the class of the geometry
//! and the coordinates.
use crate::byte_order::{
    lemma_append_assoc, lemma_skip_prefix, lemma_u32_round_trip, lemma_u64_round_trip,
    native_endianess, parse_u32, parse_u64, parse_u8, put_u32, put_u64, put_u8, take_u32, take_u64,
    take_u8, u32_bytes, u64_bytes,
};
use crate::error::Error;
use crate::ewkb::{ewkb_bytes, ewkb_parse, lemma_ewkb_round_trip};
use crate::io::{appended, Decodable, Encodable};
use crate::payload::{
    decode_coordinates, encode_coordinates, lemma_payload_errors, lemma_payload_length,
    lemma_payload_round_trip, parse_payload, payload_bytes,
};
use crate::types::{lemma_geometry_well_formed, Geometry, GeometryKind, GeometryView, MBR};
use crate::DEFAULT_SRID;
use std::ops::{Deref, DerefMut};
use vstd::prelude::*;
use vstd::std_specs::convert::{FromSpecImpl, IntoSpec};

pub use crate::byte_order::Endianess;

verus! {

/// A geometry that is encoded and decoded in the native format of
/// SpatiaLite.
#[derive(Debug, Clone, PartialEq)]
pub struct SpatiaLiteGeometry(pub Geometry);

impl View for SpatiaLiteGeometry {
    type V = GeometryView;

    open spec fn view(&self) -> GeometryView {
        self.0@
    }
}

impl Encodable for SpatiaLiteGeometry {
    open spec fn encoding(&self, e: Endianess) -> Result<Seq<u8>, Error> {
        spatialite_bytes(self@, e)
    }

    fn encode(&self, stream: &mut Vec<u8>) -> (r: Result<(), Error>) {
        encode_geometry(&self.0, stream)
    }
}

impl Decodable for SpatiaLiteGeometry {
    open spec fn geometry(&self) -> GeometryView {
        self@
    }

    open spec fn decoding(stream: Seq<u8>) -> Result<GeometryView, Error> {
        spatialite_decode(stream)
    }

    fn decode(stream: &[u8]) -> (r: Result<Self, Error>) {
        match decode_geometry(stream) {
            Ok(geometry) => Ok(Self(geometry)),
            Err(error) => Err(error),
        }
    }
}

impl SpatiaLiteGeometry {
    /// A geometry that is encoded in the native format of SpatiaLite.
    pub fn new<G: Into<Geometry>>(args: G) -> (r: Self)
        ensures
            call_ensures(<G as Into<Geometry>>::into, (args,), r.0),
            G::obeys_into_spec() ==> r.0 == args.into_spec(),
    {
        Self(args.into())
    }

    pub fn into_geometry(self) -> (r: Geometry)
        ensures
            r == self.0,
    {
        self.0
    }
}

impl Deref for SpatiaLiteGeometry {
    type Target = Geometry;

    fn deref(&self) -> (r: &Self::Target)
        ensures
            *r == self.0,
    {
        &self.0
    }
}

impl DerefMut for SpatiaLiteGeometry {
    fn deref_mut(&mut self) -> (r: &mut Self::Target)
        ensures
            *r == old(self).0,
            final(self).0 == *final(r),
    {
        &mut self.0
    }
}

impl From<Geometry> for SpatiaLiteGeometry {
    fn from(value: Geometry) -> (r: Self) {
        Self(value)
    }
}

impl FromSpecImpl<Geometry> for SpatiaLiteGeometry {
    open spec fn obeys_from_spec() -> bool {
        true
    }

    open spec fn from_spec(value: Geometry) -> Self {
        Self(value)
    }
}

impl From<SpatiaLiteGeometry> for Geometry {
    fn from(value: SpatiaLiteGeometry) -> (r: Self) {
        value.0
    }
}

impl FromSpecImpl<SpatiaLiteGeometry> for Geometry {
    open spec fn obeys_from_spec() -> bool {
        true
    }

    open spec fn from_spec(value: SpatiaLiteGeometry) -> Self {
        value.0
    }
}

/// The byte that every encoded geometry starts with.
pub const START_MARKER: u8 = 0x00;

/// The byte that ends the bounding rectangle.
pub const MBR_END_MARKER: u8 = 0x7c;

/// The byte that every encoded geometry ends with.
pub const END_MARKER: u8 = 0xfe;

/// The class of a kind: 1 to 7 for the shapes in two dimensions, 1001 to
/// 1007 for the same shapes in three.
pub open spec fn class_code(kind: GeometryKind) -> u32 {
    match kind {
        GeometryKind::Point => 1,
        GeometryKind::LineString => 2,
        GeometryKind::Polygon => 3,
        GeometryKind::MultiPoint => 4,
        GeometryKind::MultiLineString => 5,
        GeometryKind::MultiPolygon => 6,
        GeometryKind::GeometryCollection => 7,
        GeometryKind::PointZ => 1001,
        GeometryKind::LineStringZ => 1002,
        GeometryKind::PolygonZ => 1003,
        GeometryKind::MultiPointZ => 1004,
        GeometryKind::MultiLineStringZ => 1005,
        GeometryKind::MultiPolygonZ => 1006,
        GeometryKind::GeometryCollectionZ => 1007,
    }
}

/// The kind that a class names, or the error that it names none.
pub open spec fn kind_of_class(code: u32) -> Result<GeometryKind, Error> {
    if code == 1 {
        Ok(GeometryKind::Point)
    }     else if code == 2 {
        Ok(GeometryKind::LineString)
    }     else if code == 3 {
        Ok(GeometryKind::Polygon)
    }     else if code == 4 {
        Ok(GeometryKind::MultiPoint)
    }     else if code == 5 {
        Ok(GeometryKind::MultiLineString)
    }     else if code == 6 {
        Ok(GeometryKind::MultiPolygon)
    }     else if code == 7 {
        Ok(GeometryKind::GeometryCollection)
    } else if code == 1001 {
        Ok(GeometryKind::PointZ)
    } else if code == 1002 {
        Ok(GeometryKind::LineStringZ)
    } else if code == 1003 {
        Ok(GeometryKind::PolygonZ)
    } else if code == 1004 {
        Ok(GeometryKind::MultiPointZ)
    } else if code == 1005 {
        Ok(GeometryKind::MultiLineStringZ)
    } else if code == 1006 {
        Ok(GeometryKind::MultiPolygonZ)
    } else if code == 1007 {
        Ok(GeometryKind::GeometryCollectionZ)
    } else {
        Err(Error::UnknownGeometryCode { code })
    }
}

/// The class of a kind.
pub fn encode_geometry_class(kind: &GeometryKind) -> (encoded: u32)
    ensures
        encoded == class_code(*kind),
{
    match kind {
        GeometryKind::Point => 1,
        GeometryKind::LineString => 2,
        GeometryKind::Polygon => 3,
        GeometryKind::MultiPoint => 4,
        GeometryKind::MultiLineString => 5,
        GeometryKind::MultiPolygon => 6,
        GeometryKind::GeometryCollection => 7,
        GeometryKind::PointZ => 1001,
        GeometryKind::LineStringZ => 1002,
        GeometryKind::PolygonZ => 1003,
        GeometryKind::MultiPointZ => 1004,
        GeometryKind::MultiLineStringZ => 1005,
        GeometryKind::MultiPolygonZ => 1006,
        GeometryKind::GeometryCollectionZ => 1007,
    }
}

/// The kind that a class names, or the error that it names none.
pub fn decode_geometry_class(encoded: u32) -> (r: Result<GeometryKind, Error>)
    ensures
        r == kind_of_class(encoded),
{
    Ok(
        match encoded {
            1 => GeometryKind::Point,
            2 => GeometryKind::LineString,
            3 => GeometryKind::Polygon,
            4 => GeometryKind::MultiPoint,
            5 => GeometryKind::MultiLineString,
            6 => GeometryKind::MultiPolygon,
            7 => GeometryKind::GeometryCollection,
            1001 => GeometryKind::PointZ,
            1002 => GeometryKind::LineStringZ,
            1003 => GeometryKind::PolygonZ,
            1004 => GeometryKind::MultiPointZ,
            1005 => GeometryKind::MultiLineStringZ,
            1006 => GeometryKind::MultiPolygonZ,
            1007 => GeometryKind::GeometryCollectionZ,
            _ => {
                return Err(Error::UnknownGeometryCode { code: encoded });
            },
        },
    )
}

/// The kind that the class of a kind names is that kind.
pub proof fn lemma_class_round_trip(kind: GeometryKind)
    ensures
        kind_of_class(class_code(kind)) == Ok::<GeometryKind, Error>(kind),
{
}

/// What reading a byte that must hold `expected` from the front of `b`
/// gives: what follows the byte, or the error that the bytes have ended or
/// that the byte holds something else.
pub open spec fn parse_marker(b: Seq<u8>, expected: u8) -> Result<Seq<u8>, Error> {
    match parse_u8(b) {
        None => Err(Error::UnexpectedEof),
        Some((found, rest)) => if found == expected {
            Ok(rest)
        } else {
            Err(Error::InvalidMarker { expected, found })
        },
    }
}

/// Reads a byte that must hold `expected` at `pos`: the position after it.
fn expect_marker(bytes: &[u8], pos: usize, expected: u8) -> (r: Result<usize, Error>)
    requires
        pos <= bytes@.len(),
    ensures
        match r {
            Ok(next) => {
                &&& pos <= next <= bytes@.len()
                &&& parse_marker(bytes@.skip(pos as int), expected) == Ok::<_, Error>(
                    bytes@.skip(next as int),
                )
            },
            Err(error) => parse_marker(bytes@.skip(pos as int), expected) == Err::<Seq<u8>, _>(
                error,
            ),
        },
{
    match take_u8(bytes, pos) {
        None => Err(Error::UnexpectedEof),
        Some((found, next)) => if found == expected {
            Ok(next)
        } else {
            Err(Error::InvalidMarker { expected, found })
        },
    }
}

/// The bytes of a bounding rectangle: least x, least y, greatest x, greatest
/// y, and the byte that ends them.
pub open spec fn mbr_bytes(mbr: MBR<u64>, e: Endianess) -> Seq<u8> {
    u64_bytes(mbr.min_x, e) + u64_bytes(mbr.min_y, e) + u64_bytes(mbr.max_x, e) + u64_bytes(
        mbr.max_y,
        e,
    ) + seq![MBR_END_MARKER]
}

/// What reading a bounding rectangle from the front of `b` gives: the
/// rectangle and what follows it, or the first error on the way.
pub open spec fn parse_mbr(b: Seq<u8>, e: Endianess) -> Result<(MBR<u64>, Seq<u8>), Error> {
    match parse_u64(b, e) {
        None => Err(Error::UnexpectedEof),
        Some((min_x, b1)) => match parse_u64(b1, e) {
            None => Err(Error::UnexpectedEof),
            Some((min_y, b2)) => match parse_u64(b2, e) {
                None => Err(Error::UnexpectedEof),
                Some((max_x, b3)) => match parse_u64(b3, e) {
                    None => Err(Error::UnexpectedEof),
                    Some((max_y, b4)) => match parse_marker(b4, MBR_END_MARKER) {
                        Err(error) => Err(error),
                        Ok(rest) => Ok((MBR { min_x, min_y, max_x, max_y }, rest)),
                    },
                },
            },
        },
    }
}

/// Appends the bytes of a bounding rectangle to `stream`.
pub fn encode_mbr(mbr: &MBR<u64>, e: Endianess, stream: &mut Vec<u8>)
    ensures
        final(stream)@ == old(stream)@ + mbr_bytes(*mbr, e),
{
    put_u64(stream, mbr.min_x, e);
    put_u64(stream, mbr.min_y, e);
    put_u64(stream, mbr.max_x, e);
    put_u64(stream, mbr.max_y, e);
    put_u8(stream, MBR_END_MARKER);
    assert(stream@ =~= old(stream)@ + mbr_bytes(*mbr, e));
}

/// Reads a bounding rectangle at `pos`: the rectangle and the position after
/// it.
pub fn decode_mbr(bytes: &[u8], pos: usize, e: Endianess) -> (r: Result<(MBR<u64>, usize), Error>)
    requires
        pos <= bytes@.len(),
    ensures
        match r {
            Ok((mbr, next)) => {
                &&& pos <= next <= bytes@.len()
                &&& parse_mbr(bytes@.skip(pos as int), e) == Ok::<_, Error>(
                    (mbr, bytes@.skip(next as int)),
                )
            },
            Err(error) => parse_mbr(bytes@.skip(pos as int), e) == Err::<(MBR<u64>, Seq<u8>), _>(
                error,
            ),
        },
{
    let (min_x, next) = match take_u64(bytes, pos, e) {
        None => {
            return Err(Error::UnexpectedEof);
        },
        Some(read) => read,
    };
    let (min_y, next) = match take_u64(bytes, next, e) {
        None => {
            return Err(Error::UnexpectedEof);
        },
        Some(read) => read,
    };
    let (max_x, next) = match take_u64(bytes, next, e) {
        None => {
            return Err(Error::UnexpectedEof);
        },
        Some(read) => read,
    };
    let (max_y, next) = match take_u64(bytes, next, e) {
        None => {
            return Err(Error::UnexpectedEof);
        },
        Some(read) => read,
    };
    let next = expect_marker(bytes, next, MBR_END_MARKER)?;
    Ok((MBR { min_x, min_y, max_x, max_y }, next))
}

/// Reading a written bounding rectangle back, whatever follows it, yields the
/// rectangle.
pub proof fn lemma_mbr_round_trip(mbr: MBR<u64>, e: Endianess, rest: Seq<u8>)
    ensures
        mbr_bytes(mbr, e).len() == 33,
        parse_mbr(mbr_bytes(mbr, e) + rest, e) == Ok::<_, Error>((mbr, rest)),
{
    let b4 = seq![MBR_END_MARKER] + rest;
    let b3 = u64_bytes(mbr.max_y, e) + b4;
    let b2 = u64_bytes(mbr.max_x, e) + b3;
    let b1 = u64_bytes(mbr.min_y, e) + b2;
    let b0 = u64_bytes(mbr.min_x, e) + b1;
    lemma_u64_round_trip(mbr.min_x, e, b1);
    lemma_u64_round_trip(mbr.min_y, e, b2);
    lemma_u64_round_trip(mbr.max_x, e, b3);
    lemma_u64_round_trip(mbr.max_y, e, b4);
    assert(mbr_bytes(mbr, e) + rest =~= b0);
    assert(b0.skip(8) =~= b1);
    assert(b1.skip(8) =~= b2);
    assert(b2.skip(8) =~= b3);
    assert(b3.skip(8) =~= b4);
    assert(b4.skip(1) =~= rest);
}

/// The reference system that is written for a geometry: its own, or the
/// default where it names none.
pub open spec fn written_srid(srid: Option<u32>) -> u32 {
    match srid {
        Some(srid) => srid,
        None => DEFAULT_SRID,
    }
}

/// What follows the first two bytes of an encoded geometry with bounding
/// rectangle `mbr`: the reference system, the rectangle, the class, the
/// coordinates and the end byte.
pub open spec fn spatialite_body_bytes(g: GeometryView, mbr: MBR<u64>, e: Endianess) -> Seq<u8> {
    u32_bytes(written_srid(g.srid), e) + (mbr_bytes(mbr, e) + (u32_bytes(class_code(g.kind), e)
        + (payload_bytes(g.payload, e) + seq![END_MARKER])))
}

/// The encoding of a geometry in byte order `e`, or the error that it has no
/// bounding rectangle.
pub open spec fn spatialite_bytes(g: GeometryView, e: Endianess) -> Result<Seq<u8>, Error> {
    match g.mbr() {
        Err(error) => Err(error),
        Ok(mbr) => Ok(seq![START_MARKER] + (seq![e.marker()] + spatialite_body_bytes(g, mbr, e))),
    }
}

/// What reading a geometry, after its first two bytes, from the front of `b`
/// gives: the geometry and what follows it, or the first error on the way.
/// The bounding rectangle is read and left aside.
pub open spec fn spatialite_parse_body(b: Seq<u8>, e: Endianess) -> Result<
    (GeometryView, Seq<u8>),
    Error,
> {
    match parse_u32(b, e) {
        None => Err(Error::UnexpectedEof),
        Some((srid, after_srid)) => match parse_mbr(after_srid, e) {
            Err(error) => Err(error),
            Ok((_, after_mbr)) => match parse_u32(after_mbr, e) {
                None => Err(Error::UnexpectedEof),
                Some((code, after_class)) => match kind_of_class(code) {
                    Err(error) => Err(error),
                    Ok(kind) => match parse_payload(after_class, kind, e) {
                        Err(error) => Err(error),
                        Ok((payload, after_payload)) => match parse_marker(
                            after_payload,
                            END_MARKER,
                        ) {
                            Err(error) => Err(error),
                            Ok(rest) => {
                                Ok((GeometryView { kind, srid: Some(srid), payload }, rest))
                            },
                        },
                    },
                },
            },
        },
    }
}

/// What reading a geometry from the front of `b` gives: the geometry and
/// what follows it, or the first error on the way.
pub open spec fn spatialite_parse(b: Seq<u8>) -> Result<(GeometryView, Seq<u8>), Error> {
    match parse_marker(b, START_MARKER) {
        Err(error) => Err(error),
        Ok(after_start) => match parse_u8(after_start) {
            None => Err(Error::UnexpectedEof),
            Some((marker, body)) => match Endianess::of_marker(marker) {
                None => Err(Error::InvalidEndianess { marker }),
                Some(e) => spatialite_parse_body(body, e),
            },
        },
    }
}

/// The geometry that the bytes start with, or the error that they hold.
/// Bytes that follow the geometry are left aside.
pub open spec fn spatialite_decode(b: Seq<u8>) -> Result<GeometryView, Error> {
    match spatialite_parse(b) {
        Err(error) => Err(error),
        Ok((g, _)) => Ok(g),
    }
}

/// Reading the fields around the coordinates of an encoded geometry back
/// yields the fields, whatever bytes stand for the coordinates.
proof fn lemma_spatialite_frame(
    srid: u32,
    mbr: MBR<u64>,
    code: u32,
    payload: Seq<u8>,
    e: Endianess,
    rest: Seq<u8>,
)
    ensures
        ({
            let after_payload = seq![END_MARKER] + rest;
            let after_class = payload + after_payload;
            let after_mbr = u32_bytes(code, e) + after_class;
            let after_srid = mbr_bytes(mbr, e) + after_mbr;
            let body = u32_bytes(srid, e) + (mbr_bytes(mbr, e) + (u32_bytes(code, e) + (payload
                + seq![END_MARKER])));
            &&& body + rest == u32_bytes(srid, e) + after_srid
            &&& parse_u32(u32_bytes(srid, e) + after_srid, e) == Some((srid, after_srid))
            &&& parse_mbr(after_srid, e) == Ok::<_, Error>((mbr, after_mbr))
            &&& parse_u32(after_mbr, e) == Some((code, after_class))
            &&& parse_marker(after_payload, END_MARKER) == Ok::<_, Error>(rest)
        }),
{
    let end = seq![END_MARKER];
    let after_payload = end + rest;
    let after_class = payload + after_payload;
    let after_mbr = u32_bytes(code, e) + after_class;
    let after_srid = mbr_bytes(mbr, e) + after_mbr;
    lemma_append_assoc(payload, end, rest);
    lemma_append_assoc(u32_bytes(code, e), payload + end, rest);
    lemma_append_assoc(mbr_bytes(mbr, e), u32_bytes(code, e) + (payload + end), rest);
    lemma_append_assoc(
        u32_bytes(srid, e),
        mbr_bytes(mbr, e) + (u32_bytes(code, e) + (payload + end)),
        rest,
    );
    lemma_u32_round_trip(srid, e, after_srid);
    lemma_skip_prefix(u32_bytes(srid, e), after_srid);
    lemma_mbr_round_trip(mbr, e, after_mbr);
    lemma_u32_round_trip(code, e, after_class);
    lemma_skip_prefix(u32_bytes(code, e), after_class);
    lemma_skip_prefix(end, rest);
}

/// Reading what follows the first two bytes of an encoded geometry yields
/// the geometry, in the reference system that was written.
proof fn lemma_spatialite_body_round_trip(
    g: GeometryView,
    mbr: MBR<u64>,
    e: Endianess,
    rest: Seq<u8>,
)
    requires
        g.well_formed(),
        g.canonical(),
    ensures
        spatialite_parse_body(spatialite_body_bytes(g, mbr, e) + rest, e) == Ok::<_, Error>(
            (GeometryView { srid: Some(written_srid(g.srid)), ..g }, rest),
        ),
{
    let after_payload = seq![END_MARKER] + rest;
    lemma_spatialite_frame(
        written_srid(g.srid),
        mbr,
        class_code(g.kind),
        payload_bytes(g.payload, e),
        e,
        rest,
    );
    lemma_class_round_trip(g.kind);
    lemma_payload_round_trip(g, e, after_payload);
}

/// Decoding the encoding of a geometry, in either byte order and whatever
/// follows it, yields the geometry in the reference system that was written:
/// its own, or the default where it names none. This holds as long as the
/// geometry has an encoding, its coordinates have the form of its kind, four
/// bytes hold each count, and the rings of a polygon are closed.
pub proof fn lemma_spatialite_round_trip(g: GeometryView, e: Endianess, rest: Seq<u8>)
    requires
        g.well_formed(),
        g.canonical(),
        spatialite_bytes(g, e) is Ok,
    ensures
        spatialite_parse(spatialite_bytes(g, e)->Ok_0 + rest) == Ok::<_, Error>(
            (GeometryView { srid: Some(written_srid(g.srid)), ..g }, rest),
        ),
        spatialite_decode(spatialite_bytes(g, e)->Ok_0 + rest) == Ok::<_, Error>(
            GeometryView { srid: Some(written_srid(g.srid)), ..g },
        ),
        g.srid is Some ==> spatialite_decode(spatialite_bytes(g, e)->Ok_0 + rest) == Ok::<
            _,
            Error,
        >(g),
{
    let mbr = g.mbr()->Ok_0;
    let start = seq![START_MARKER];
    let order = seq![e.marker()];
    let body = spatialite_body_bytes(g, mbr, e) + rest;
    let after_start = order + body;
    let all = spatialite_bytes(g, e)->Ok_0 + rest;
    assert(all == start + after_start) by {
        lemma_append_assoc(order, spatialite_body_bytes(g, mbr, e), rest);
        lemma_append_assoc(start, order + spatialite_body_bytes(g, mbr, e), rest);
    }
    assert(parse_marker(all, START_MARKER) == Ok::<_, Error>(after_start)) by {
        lemma_skip_prefix(start, after_start);
    }
    assert(parse_u8(after_start) == Some((e.marker(), body))) by {
        lemma_skip_prefix(order, body);
    }
    assert(Endianess::of_marker(e.marker()) == Some(e));
    lemma_spatialite_body_round_trip(g, mbr, e, rest);
}

/// Decoding the encoding of any geometry of the library that names its
/// reference system, in either byte order, yields the geometry: as long as it
/// has a bounding rectangle, four bytes hold each of its counts, and its
/// rings are closed if it is a polygon.
pub proof fn lemma_spatialite_geometry_round_trip(geometry: Geometry, e: Endianess)
    requires
        geometry@.canonical(),
        geometry@.srid is Some,
        geometry@.mbr() is Ok,
    ensures
        spatialite_bytes(geometry@, e) is Ok,
        spatialite_decode(spatialite_bytes(geometry@, e)->Ok_0) == Ok::<_, Error>(geometry@),
{
    let bytes = spatialite_bytes(geometry@, e)->Ok_0;
    lemma_geometry_well_formed(geometry);
    lemma_spatialite_round_trip(geometry@, e, Seq::empty());
    assert(bytes + Seq::<u8>::empty() =~= bytes);
}

/// The two formats never give the same bytes for a geometry, in whatever
/// byte orders, and each gives the geometry back: as long as the geometry
/// names its reference system and has a bounding rectangle, its coordinates
/// have the form of its kind, four bytes hold each count, and the rings of a
/// polygon are closed.
pub proof fn lemma_formats_differ(g: GeometryView, e1: Endianess, e2: Endianess)
    requires
        g.well_formed(),
        g.canonical(),
        g.srid is Some,
        spatialite_bytes(g, e2) is Ok,
    ensures
        ewkb_bytes(g, e1) != spatialite_bytes(g, e2)->Ok_0,
        ewkb_parse(ewkb_bytes(g, e1)) == Ok::<_, Error>((g, Seq::<u8>::empty())),
        spatialite_parse(spatialite_bytes(g, e2)->Ok_0) == Ok::<_, Error>(
            (g, Seq::<u8>::empty()),
        ),
{
    lemma_formats_differ_in_length(g, e1, e2);
    lemma_ewkb_round_trip(g, e1, Seq::empty());
    assert(ewkb_bytes(g, e1) + Seq::<u8>::empty() =~= ewkb_bytes(g, e1));
    lemma_spatialite_round_trip(g, e2, Seq::empty());
    assert(spatialite_bytes(g, e2)->Ok_0 + Seq::<u8>::empty() =~= spatialite_bytes(g, e2)->Ok_0);
}

/// The encoding of a geometry in the format of SpatiaLite is longer than its
/// encoding in EWKB, whatever the geometry and the byte orders.
pub proof fn lemma_formats_differ_in_length(g: GeometryView, e1: Endianess, e2: Endianess)
    requires
        spatialite_bytes(g, e2) is Ok,
    ensures
        ewkb_bytes(g, e1).len() < spatialite_bytes(g, e2)->Ok_0.len(),
{
    let mbr = g.mbr()->Ok_0;
    lemma_mbr_round_trip(mbr, e2, Seq::empty());
    lemma_u32_round_trip(written_srid(g.srid), e2, Seq::empty());
    lemma_u32_round_trip(class_code(g.kind), e2, Seq::empty());
    lemma_u32_round_trip(crate::ewkb::flags_code(crate::ewkb::flags_of(g)), e1, Seq::empty());
    if g.srid is Some {
        lemma_u32_round_trip(g.srid->Some_0, e1, Seq::empty());
    }
    lemma_payload_length(g.payload, e1, e2);
}

/// Decoding fails only on bytes that end too early or that break the
/// format.
pub proof fn lemma_spatialite_errors(b: Seq<u8>)
    ensures
        spatialite_decode(b) matches Err(error) ==> error == Error::UnexpectedEof
            || error.malformed(),
{
    if let Ok(after_start) = parse_marker(b, START_MARKER) {
        if let Some((marker, body)) = parse_u8(after_start) {
            if let Some(e) = Endianess::of_marker(marker) {
                lemma_spatialite_body_errors(body, e);
            }
        }
    }
}

/// Reading what follows the first two bytes fails only on bytes that end too
/// early or that break the format.
proof fn lemma_spatialite_body_errors(b: Seq<u8>, e: Endianess)
    ensures
        spatialite_parse_body(b, e) matches Err(error) ==> error == Error::UnexpectedEof
            || error.malformed(),
{
    if let Some((_, after_srid)) = parse_u32(b, e) {
        if let Ok((_, after_mbr)) = parse_mbr(after_srid, e) {
            if let Some((code, after_class)) = parse_u32(after_mbr, e) {
                if let Ok(kind) = kind_of_class(code) {
                    lemma_payload_errors(after_class, kind, e);
                }
            }
        }
    }
}

/// Seven fields appended one after the other to what a stream holds are
/// the stream and then the fields.
proof fn lemma_layout(
    x: Seq<u8>,
    a: Seq<u8>,
    b: Seq<u8>,
    c: Seq<u8>,
    d: Seq<u8>,
    f: Seq<u8>,
    p: Seq<u8>,
    z: Seq<u8>,
)
    ensures
        x + a + b + c + d + f + p + z == x + (a + (b + (c + (d + (f + (p + z)))))),
{
    assert(x + a + b + c + d + f + p + z =~= x + (a + (b + (c + (d + (f + (p + z)))))));
}

/// Appends the encoding of the geometry, in the byte order of the machine, to
/// `stream`. It fails, and leaves `stream` as it is, where the geometry has
/// no bounding rectangle.
pub fn encode_geometry(geometry: &Geometry, stream: &mut Vec<u8>) -> (r: Result<(), Error>)
    ensures
        appended(
            spatialite_bytes(geometry@, Endianess::BigEndian),
            old(stream)@,
            final(stream)@,
            r,
        ) || appended(
            spatialite_bytes(geometry@, Endianess::LittleEndian),
            old(stream)@,
            final(stream)@,
            r,
        ),
{
    encode_geometry_with_endianess(geometry, native_endianess(), stream)
}

/// Appends the encoding of the geometry, in byte order `endianess`, to
/// `stream`. It fails, and leaves `stream` as it is, where the geometry has
/// no bounding rectangle.
pub fn encode_geometry_with_endianess(
    geometry: &Geometry,
    endianess: Endianess,
    stream: &mut Vec<u8>,
) -> (r: Result<(), Error>)
    ensures
        appended(spatialite_bytes(geometry@, endianess), old(stream)@, final(stream)@, r),
{
    let mbr = geometry.mbr()?;
    put_u8(stream, START_MARKER);
    put_u8(stream, endianess.to_marker());
    let srid = match geometry.srid() {
        Some(srid) => srid,
        None => DEFAULT_SRID,
    };
    put_u32(stream, srid, endianess);
    encode_mbr(&mbr, endianess, stream);
    put_u32(stream, encode_geometry_class(&geometry.kind()), endianess);
    encode_coordinates(geometry.borrow_coordinates(), endianess, stream);
    put_u8(stream, END_MARKER);
    proof {
        lemma_layout(
            old(stream)@,
            seq![START_MARKER],
            seq![endianess.marker()],
            u32_bytes(written_srid(geometry@.srid), endianess),
            mbr_bytes(mbr, endianess),
            u32_bytes(class_code(geometry@.kind), endianess),
            payload_bytes(geometry@.payload, endianess),
            seq![END_MARKER],
        );
    }
    Ok(())
}

/// Decodes the geometry that the bytes start with.
pub fn decode_geometry(stream: &[u8]) -> (r: Result<Geometry, Error>)
    ensures
        match r {
            Ok(geometry) => spatialite_decode(stream@) == Ok::<_, Error>(geometry@),
            Err(error) => spatialite_decode(stream@) == Err::<GeometryView, _>(error),
        },
{
    assert(stream@.skip(0) =~= stream@);
    let next = expect_marker(stream, 0, START_MARKER)?;
    let (marker, next) = match take_u8(stream, next) {
        None => {
            return Err(Error::UnexpectedEof);
        },
        Some(read) => read,
    };
    let endianess = match Endianess::from_marker(marker) {
        None => {
            return Err(Error::InvalidEndianess { marker });
        },
        Some(endianess) => endianess,
    };
    match decode_geometry_with_endianess(stream, next, endianess) {
        Err(error) => Err(error),
        Ok((geometry, _)) => Ok(geometry),
    }
}

/// Decodes a geometry, after its first two bytes, at `pos`: the geometry and
/// the position after it.
fn decode_geometry_with_endianess(stream: &[u8], pos: usize, e: Endianess) -> (r: Result<
    (Geometry, usize),
    Error,
>)
    requires
        pos <= stream@.len(),
    ensures
        match r {
            Ok((geometry, next)) => {
                &&& pos <= next <= stream@.len()
                &&& spatialite_parse_body(stream@.skip(pos as int), e) == Ok::<_, Error>(
                    (geometry@, stream@.skip(next as int)),
                )
            },
            Err(error) => spatialite_parse_body(stream@.skip(pos as int), e) == Err::<
                (GeometryView, Seq<u8>),
                _,
            >(error),
        },
{
    let (srid, next) = match take_u32(stream, pos, e) {
        None => {
            return Err(Error::UnexpectedEof);
        },
        Some(read) => read,
    };
    let (_mbr, next) = decode_mbr(stream, next, e)?;
    let (code, next) = match take_u32(stream, next, e) {
        None => {
            return Err(Error::UnexpectedEof);
        },
        Some(read) => read,
    };
    let kind = decode_geometry_class(code)?;
    let (mut geom, next) = decode_coordinates(kind, stream, next, e)?;
    geom.set_srid(Some(srid));
    let next = expect_marker(stream, next, END_MARKER)?;
    Ok((geom, next))
}

} // verus!
