//! The Extended Well-Known Binary format (EWKB) of PostGIS.
//!
//! An encoded geometry is a marker byte for the byte order, a type code of
//! four bytes, the reference system in four bytes where the type code
//! announces one, and the coordinates.
use crate::byte_order::{
    lemma_append_assoc, lemma_skip_prefix, lemma_u32_round_trip, native_endianess, parse_u32,
    parse_u8, put_u32, put_u8, take_u32, take_u8, u32_bytes, u32_from_bytes,
};
use crate::error::Error;
use crate::io::{Decodable, Encodable};
use crate::payload::{
    decode_coordinates, encode_coordinates, lemma_payload_errors, lemma_payload_round_trip,
    parse_payload, payload_bytes,
};
use crate::types::{lemma_geometry_well_formed, Geometry, GeometryKind, GeometryView};
use std::ops::{Deref, DerefMut};
use vstd::prelude::*;
use vstd::std_specs::convert::{FromSpecImpl, IntoSpec, TryFromSpecImpl};

pub use crate::byte_order::Endianess;

verus! {

/// A geometry that is encoded and decoded in the EWKB format.
#[derive(Debug, Clone, PartialEq)]
pub struct EWKBGeometry(pub Geometry);

impl View for EWKBGeometry {
    type V = GeometryView;

    open spec fn view(&self) -> GeometryView {
        self.0@
    }
}

impl Encodable for EWKBGeometry {
    open spec fn encoding(&self, e: Endianess) -> Result<Seq<u8>, Error> {
        Ok(ewkb_bytes(self@, e))
    }

    fn encode(&self, stream: &mut Vec<u8>) -> (r: Result<(), Error>) {
        encode_geometry(&self.0, stream)
    }
}

impl Decodable for EWKBGeometry {
    open spec fn geometry(&self) -> GeometryView {
        self@
    }

    open spec fn decoding(stream: Seq<u8>) -> Result<GeometryView, Error> {
        ewkb_decode(stream)
    }

    fn decode(stream: &[u8]) -> (r: Result<Self, Error>) {
        match decode_geometry(stream) {
            Ok(geometry) => Ok(Self(geometry)),
            Err(error) => Err(error),
        }
    }
}

impl<'a> TryFrom<&'a [u8]> for EWKBGeometry {
    type Error = Error;

    /// Decodes the geometry that the bytes start with.
    fn try_from(value: &'a [u8]) -> (r: Result<Self, Self::Error>)
        ensures
            match r {
                Ok(geometry) => ewkb_decode(value@) == Ok::<_, Error>(geometry@),
                Err(error) => ewkb_decode(value@) == Err::<GeometryView, _>(error),
            },
    {
        match decode_geometry(value) {
            Ok(geometry) => Ok(Self(geometry)),
            Err(error) => Err(error),
        }
    }
}

impl<'a> TryFromSpecImpl<&'a [u8]> for EWKBGeometry {
    /// The result is stated over the view of the geometry, by the method
    /// itself.
    open spec fn obeys_try_from_spec() -> bool {
        false
    }

    open spec fn try_from_spec(value: &'a [u8]) -> Result<Self, Self::Error> {
        arbitrary()
    }
}

impl From<EWKBGeometry> for Geometry {
    fn from(value: EWKBGeometry) -> (r: Self) {
        value.0
    }
}

impl FromSpecImpl<EWKBGeometry> for Geometry {
    open spec fn obeys_from_spec() -> bool {
        true
    }

    open spec fn from_spec(value: EWKBGeometry) -> Self {
        value.0
    }
}

impl From<Geometry> for EWKBGeometry {
    fn from(value: Geometry) -> (r: Self) {
        Self(value)
    }
}

impl FromSpecImpl<Geometry> for EWKBGeometry {
    open spec fn obeys_from_spec() -> bool {
        true
    }

    open spec fn from_spec(value: Geometry) -> Self {
        Self(value)
    }
}

impl Deref for EWKBGeometry {
    type Target = Geometry;

    fn deref(&self) -> (r: &Self::Target)
        ensures
            *r == self.0,
    {
        &self.0
    }
}

impl DerefMut for EWKBGeometry {
    fn deref_mut(&mut self) -> (r: &mut Self::Target)
        ensures
            *r == old(self).0,
            final(self).0 == *final(r),
    {
        &mut self.0
    }
}

impl EWKBGeometry {
    /// A geometry that is encoded in the EWKB format.
    pub fn new<G: Into<Geometry>>(args: G) -> (r: Self)
        ensures
            call_ensures(<G as Into<Geometry>>::into, (args,), r.0),
            G::obeys_into_spec() ==> r.0 == args.into_spec(),
    {
        Self(args.into())
    }
}

/// The bit of the type code that announces a reference system.
pub const WITH_SRID_MASK: u32 = 0x2000_0000;

/// What the type code of an encoded geometry says: the kind of the geometry,
/// and whether a reference system follows.
#[derive(Debug, Clone, Copy, PartialEq, Eq, Structural)]
pub struct Flags {
    pub kind: GeometryKind,
    pub with_srid: bool,
}

impl Flags {
    pub fn from_geometry(geom: &Geometry) -> (flags: Self)
        ensures
            flags == flags_of(geom@),
    {
        Self { kind: geom.kind(), with_srid: geom.srid().is_some() }
    }
}

/// The flags under which a geometry is encoded.
pub open spec fn flags_of(g: GeometryView) -> Flags {
    Flags { kind: g.kind, with_srid: g.srid is Some }
}

/// The code of a kind: 1 to 7 for the shapes in two dimensions, and the same
/// with the top bit set in three.
pub open spec fn kind_code(kind: GeometryKind) -> u32 {
    match kind {
        GeometryKind::Point => 1,
        GeometryKind::LineString => 2,
        GeometryKind::Polygon => 3,
        GeometryKind::MultiPoint => 4,
        GeometryKind::MultiLineString => 5,
        GeometryKind::MultiPolygon => 6,
        GeometryKind::GeometryCollection => 7,
        GeometryKind::PointZ => 0x8000_0001,
        GeometryKind::LineStringZ => 0x8000_0002,
        GeometryKind::PolygonZ => 0x8000_0003,
        GeometryKind::MultiPointZ => 0x8000_0004,
        GeometryKind::MultiLineStringZ => 0x8000_0005,
        GeometryKind::MultiPolygonZ => 0x8000_0006,
        GeometryKind::GeometryCollectionZ => 0x8000_0007,
    }
}

/// The kind that a code names, where it names one.
pub open spec fn kind_of_code(code: u32) -> Option<GeometryKind> {
    if code == 1 {
        Some(GeometryKind::Point)
    }     else if code == 2 {
        Some(GeometryKind::LineString)
    }     else if code == 3 {
        Some(GeometryKind::Polygon)
    }     else if code == 4 {
        Some(GeometryKind::MultiPoint)
    }     else if code == 5 {
        Some(GeometryKind::MultiLineString)
    }     else if code == 6 {
        Some(GeometryKind::MultiPolygon)
    }     else if code == 7 {
        Some(GeometryKind::GeometryCollection)
    } else if code == 0x8000_0001 {
        Some(GeometryKind::PointZ)
    } else if code == 0x8000_0002 {
        Some(GeometryKind::LineStringZ)
    } else if code == 0x8000_0003 {
        Some(GeometryKind::PolygonZ)
    } else if code == 0x8000_0004 {
        Some(GeometryKind::MultiPointZ)
    } else if code == 0x8000_0005 {
        Some(GeometryKind::MultiLineStringZ)
    } else if code == 0x8000_0006 {
        Some(GeometryKind::MultiPolygonZ)
    } else if code == 0x8000_0007 {
        Some(GeometryKind::GeometryCollectionZ)
    } else {
        None
    }
}

/// The type code that stands for the flags: the code of the kind, with the
/// bit for the reference system where one follows.
pub open spec fn flags_code(flags: Flags) -> u32 {
    kind_code(flags.kind) | if flags.with_srid {
        WITH_SRID_MASK
    } else {
        0
    }
}

/// The flags that a type code stands for. A code that, without the bit for
/// the reference system, names no kind is an error.
pub open spec fn flags_of_code(code: u32) -> Result<Flags, Error> {
    match kind_of_code(code & !WITH_SRID_MASK) {
        None => Err(Error::UnknownGeometryCode { code }),
        Some(kind) => Ok(Flags { kind, with_srid: code & WITH_SRID_MASK == WITH_SRID_MASK }),
    }
}

/// The type code that stands for the flags.
pub fn encode_flags(flags: &Flags) -> (encoded: u32)
    ensures
        encoded == flags_code(*flags),
{
    let encoded: u32 = match flags.kind {
        GeometryKind::Point => 1,
        GeometryKind::LineString => 2,
        GeometryKind::Polygon => 3,
        GeometryKind::MultiPoint => 4,
        GeometryKind::MultiLineString => 5,
        GeometryKind::MultiPolygon => 6,
        GeometryKind::GeometryCollection => 7,
        GeometryKind::PointZ => 0x8000_0001,
        GeometryKind::LineStringZ => 0x8000_0002,
        GeometryKind::PolygonZ => 0x8000_0003,
        GeometryKind::MultiPointZ => 0x8000_0004,
        GeometryKind::MultiLineStringZ => 0x8000_0005,
        GeometryKind::MultiPolygonZ => 0x8000_0006,
        GeometryKind::GeometryCollectionZ => 0x8000_0007,
    };
    encoded | if flags.with_srid {
        WITH_SRID_MASK
    } else {
        0
    }
}

/// The flags that a type code stands for, or the error that it names no
/// kind.
pub fn decode_flags(encoded: u32) -> (r: Result<Flags, Error>)
    ensures
        r == flags_of_code(encoded),
{
    let with_srid = (encoded & WITH_SRID_MASK) == WITH_SRID_MASK;
    let code = encoded & !WITH_SRID_MASK;
    let kind = if code == 1 {
        GeometryKind::Point
    } else if code == 2 {
        GeometryKind::LineString
    } else if code == 3 {
        GeometryKind::Polygon
    } else if code == 4 {
        GeometryKind::MultiPoint
    } else if code == 5 {
        GeometryKind::MultiLineString
    } else if code == 6 {
        GeometryKind::MultiPolygon
    } else if code == 7 {
        GeometryKind::GeometryCollection
    } else if code == 0x8000_0001 {
        GeometryKind::PointZ
    } else if code == 0x8000_0002 {
        GeometryKind::LineStringZ
    } else if code == 0x8000_0003 {
        GeometryKind::PolygonZ
    } else if code == 0x8000_0004 {
        GeometryKind::MultiPointZ
    } else if code == 0x8000_0005 {
        GeometryKind::MultiLineStringZ
    } else if code == 0x8000_0006 {
        GeometryKind::MultiPolygonZ
    } else if code == 0x8000_0007 {
        GeometryKind::GeometryCollectionZ
    } else {
        return Err(Error::UnknownGeometryCode { code: encoded });
    };
    Ok(Flags { kind, with_srid })
}

/// No code of a kind holds the bit for the reference system, so that the bit
/// can be set on it and taken off again.
proof fn lemma_srid_bit(code: u32)
    by (bit_vector)
    requires
        1 <= code <= 7 || 0x8000_0001 <= code <= 0x8000_0007,
    ensures
        (code | 0x2000_0000) & !0x2000_0000u32 == code,
        (code | 0x2000_0000) & 0x2000_0000 == 0x2000_0000,
        (code | 0) & !0x2000_0000u32 == code,
        (code | 0) & 0x2000_0000 != 0x2000_0000,
{
}

/// The flags that the type code of some flags stands for are those flags.
pub proof fn lemma_flags_round_trip(flags: Flags)
    ensures
        flags_of_code(flags_code(flags)) == Ok::<Flags, Error>(flags),
{
    lemma_srid_bit(kind_code(flags.kind));
}

/// The bytes of the reference system: four where there is one, and none
/// where there is none.
pub open spec fn srid_bytes(srid: Option<u32>, e: Endianess) -> Seq<u8> {
    match srid {
        Some(srid) => u32_bytes(srid, e),
        None => Seq::empty(),
    }
}

/// What reading the reference system from the front of `b` gives: four bytes
/// of it where one is announced, and else nothing of `b`.
pub open spec fn parse_srid(b: Seq<u8>, with_srid: bool, e: Endianess) -> Option<
    (Option<u32>, Seq<u8>),
> {
    if with_srid {
        match parse_u32(b, e) {
            None => None,
            Some((srid, rest)) => Some((Some(srid), rest)),
        }
    } else {
        Some((None, b))
    }
}

/// The encoding of a geometry, without its marker byte: the type code, the
/// reference system where there is one, and the coordinates.
pub open spec fn ewkb_body_bytes(g: GeometryView, e: Endianess) -> Seq<u8> {
    u32_bytes(flags_code(flags_of(g)), e) + (srid_bytes(g.srid, e) + payload_bytes(g.payload, e))
}

/// The encoding of a geometry in byte order `e`: the marker of the byte
/// order, and then the rest in that order.
pub open spec fn ewkb_bytes(g: GeometryView, e: Endianess) -> Seq<u8> {
    seq![e.marker()] + ewkb_body_bytes(g, e)
}

/// What reading a geometry, after its marker byte, from the front of `b`
/// gives: the geometry and what follows it, or the first error on the way.
pub open spec fn ewkb_parse_body(b: Seq<u8>, e: Endianess) -> Result<
    (GeometryView, Seq<u8>),
    Error,
> {
    match parse_u32(b, e) {
        None => Err(Error::UnexpectedEof),
        Some((code, after_code)) => match flags_of_code(code) {
            Err(error) => Err(error),
            Ok(flags) => match parse_srid(after_code, flags.with_srid, e) {
                None => Err(Error::UnexpectedEof),
                Some((srid, after_srid)) => match parse_payload(after_srid, flags.kind, e) {
                    Err(error) => Err(error),
                    Ok((payload, rest)) => Ok(
                        (GeometryView { kind: flags.kind, srid, payload }, rest),
                    ),
                },
            },
        },
    }
}

/// What reading a geometry from the front of `b` gives: the geometry and
/// what follows it, or the first error on the way.
pub open spec fn ewkb_parse(b: Seq<u8>) -> Result<(GeometryView, Seq<u8>), Error> {
    match parse_u8(b) {
        None => Err(Error::UnexpectedEof),
        Some((marker, body)) => match Endianess::of_marker(marker) {
            None => Err(Error::InvalidEndianess { marker }),
            Some(e) => ewkb_parse_body(body, e),
        },
    }
}

/// The geometry that the bytes start with, or the error that they hold.
/// Bytes that follow the geometry are left aside.
pub open spec fn ewkb_decode(b: Seq<u8>) -> Result<GeometryView, Error> {
    match ewkb_parse(b) {
        Err(error) => Err(error),
        Ok((g, _)) => Ok(g),
    }
}

/// Reading a written reference system back, whatever follows it, yields the
/// reference system.
pub proof fn lemma_srid_round_trip(srid: Option<u32>, e: Endianess, rest: Seq<u8>)
    ensures
        parse_srid(srid_bytes(srid, e) + rest, srid is Some, e) == Some((srid, rest)),
{
    match srid {
        Some(n) => {
            lemma_u32_round_trip(n, e, rest);
            assert((u32_bytes(n, e) + rest).skip(4) =~= rest);
        },
        None => {
            assert(srid_bytes(srid, e) + rest =~= rest);
        },
    }
}

/// Reading what follows the marker byte of an encoded geometry yields the
/// geometry.
proof fn lemma_ewkb_body_round_trip(g: GeometryView, e: Endianess, rest: Seq<u8>)
    requires
        g.well_formed(),
        g.canonical(),
    ensures
        ewkb_parse_body(ewkb_body_bytes(g, e) + rest, e) == Ok::<_, Error>((g, rest)),
{
    let code = flags_code(flags_of(g));
    let after_srid = payload_bytes(g.payload, e) + rest;
    let after_code = srid_bytes(g.srid, e) + after_srid;
    let body = ewkb_body_bytes(g, e) + rest;
    assert(body == u32_bytes(code, e) + after_code) by {
        lemma_append_assoc(srid_bytes(g.srid, e), payload_bytes(g.payload, e), rest);
        lemma_append_assoc(
            u32_bytes(code, e),
            srid_bytes(g.srid, e) + payload_bytes(g.payload, e),
            rest,
        );
    }
    assert(parse_u32(body, e) == Some((code, after_code))) by {
        lemma_u32_round_trip(code, e, after_code);
        lemma_skip_prefix(u32_bytes(code, e), after_code);
    }
    assert(flags_of_code(code) == Ok::<Flags, Error>(flags_of(g))) by {
        lemma_flags_round_trip(flags_of(g));
    }
    assert(parse_srid(after_code, g.srid is Some, e) == Some((g.srid, after_srid))) by {
        lemma_srid_round_trip(g.srid, e, after_srid);
    }
    assert(parse_payload(after_srid, g.kind, e) == Ok::<_, Error>((g.payload, rest))) by {
        lemma_payload_round_trip(g, e, rest);
    }
}

/// Decoding the encoding of a geometry, in either byte order and whatever
/// follows it, yields the geometry: as long as its coordinates have the form
/// of its kind, four bytes hold each count, and the rings of a polygon are
/// closed.
pub proof fn lemma_ewkb_round_trip(g: GeometryView, e: Endianess, rest: Seq<u8>)
    requires
        g.well_formed(),
        g.canonical(),
    ensures
        ewkb_parse(ewkb_bytes(g, e) + rest) == Ok::<_, Error>((g, rest)),
        ewkb_decode(ewkb_bytes(g, e) + rest) == Ok::<_, Error>(g),
{
    let body = ewkb_body_bytes(g, e) + rest;
    let all = ewkb_bytes(g, e) + rest;
    assert(all == seq![e.marker()] + body) by {
        lemma_append_assoc(seq![e.marker()], ewkb_body_bytes(g, e), rest);
    }
    assert(parse_u8(all) == Some((e.marker(), body))) by {
        lemma_skip_prefix(seq![e.marker()], body);
    }
    assert(Endianess::of_marker(e.marker()) == Some(e));
    lemma_ewkb_body_round_trip(g, e, rest);
}

/// Decoding the encoding of any geometry of the library, in either byte
/// order, yields the geometry: as long as four bytes hold each of its counts,
/// and its rings are closed if it is a polygon.
pub proof fn lemma_ewkb_geometry_round_trip(geometry: Geometry, e: Endianess)
    requires
        geometry@.canonical(),
    ensures
        ewkb_decode(ewkb_bytes(geometry@, e)) == Ok::<_, Error>(geometry@),
{
    lemma_geometry_well_formed(geometry);
    lemma_ewkb_round_trip(geometry@, e, Seq::empty());
    assert(ewkb_bytes(geometry@, e) + Seq::<u8>::empty() =~= ewkb_bytes(geometry@, e));
}

/// Bytes of which the type code names no kind are refused for that code,
/// whatever follows it.
pub proof fn lemma_ewkb_unknown_code(b: Seq<u8>, e: Endianess)
    requires
        b.len() >= 5,
        Endianess::of_marker(b[0]) == Some(e),
        flags_of_code(u32_from_bytes(b.skip(1), e)) is Err,
    ensures
        ewkb_decode(b) == Err::<GeometryView, _>(
            Error::UnknownGeometryCode { code: u32_from_bytes(b.skip(1), e) },
        ),
        ewkb_decode(b)->Err_0.malformed(),
{
}

/// Decoding fails only on bytes that end too early or that break the
/// format.
pub proof fn lemma_ewkb_errors(b: Seq<u8>)
    ensures
        ewkb_decode(b) matches Err(error) ==> error == Error::UnexpectedEof || error.malformed(),
{
    if b.len() >= 1 {
        match Endianess::of_marker(b[0]) {
            Some(e) => {
                match parse_u32(b.skip(1), e) {
                    Some((code, after_code)) => {
                        match flags_of_code(code) {
                            Ok(flags) => {
                                match parse_srid(after_code, flags.with_srid, e) {
                                    Some((_, after_srid)) => {
                                        lemma_payload_errors(after_srid, flags.kind, e);
                                    },
                                    None => {},
                                }
                            },
                            Err(_) => {},
                        }
                    },
                    None => {},
                }
            },
            None => {},
        }
    }
}

/// Four fields appended one after the other to what a stream holds are the
/// stream and then the fields.
proof fn lemma_layout(x: Seq<u8>, a: Seq<u8>, b: Seq<u8>, c: Seq<u8>, d: Seq<u8>)
    ensures
        x + a + b + c + d == x + (a + (b + (c + d))),
{
    assert(x + a + b + c + d =~= x + (a + (b + (c + d))));
}

/// Appends the encoding of the geometry, in the byte order of the machine, to
/// `stream`. It never fails.
pub fn encode_geometry(geometry: &Geometry, stream: &mut Vec<u8>) -> (r: Result<(), Error>)
    ensures
        r is Ok,
        final(stream)@ == old(stream)@ + ewkb_bytes(geometry@, Endianess::BigEndian)
            || final(stream)@ == old(stream)@ + ewkb_bytes(geometry@, Endianess::LittleEndian),
{
    encode_geometry_with_endianess(geometry, native_endianess(), stream)
}

/// Appends the encoding of the geometry, in byte order `endianess`, to
/// `stream`. It never fails.
pub fn encode_geometry_with_endianess(
    geom: &Geometry,
    endianess: Endianess,
    stream: &mut Vec<u8>,
) -> (r: Result<(), Error>)
    ensures
        r is Ok,
        final(stream)@ == old(stream)@ + ewkb_bytes(geom@, endianess),
{
    put_u8(stream, endianess.to_marker());
    let flags = Flags::from_geometry(geom);
    put_u32(stream, encode_flags(&flags), endianess);
    let ghost before_srid = stream@;
    if let Some(srid) = geom.srid() {
        put_u32(stream, srid, endianess);
    }
    assert(stream@ == before_srid + srid_bytes(geom@.srid, endianess)) by {
        if geom@.srid is None {
            assert(before_srid + Seq::<u8>::empty() =~= before_srid);
        }
    }
    encode_coordinates(geom.borrow_coordinates(), endianess, stream);
    proof {
        lemma_layout(
            old(stream)@,
            seq![endianess.marker()],
            u32_bytes(flags_code(flags_of(geom@)), endianess),
            srid_bytes(geom@.srid, endianess),
            payload_bytes(geom@.payload, endianess),
        );
    }
    Ok(())
}

/// Decodes the geometry that the bytes start with.
pub fn decode_geometry(stream: &[u8]) -> (r: Result<Geometry, Error>)
    ensures
        match r {
            Ok(geometry) => ewkb_decode(stream@) == Ok::<_, Error>(geometry@),
            Err(error) => ewkb_decode(stream@) == Err::<GeometryView, _>(error),
        },
{
    assert(stream@.skip(0) =~= stream@);
    let (marker, next) = match take_u8(stream, 0) {
        None => {
            return Err(Error::UnexpectedEof);
        },
        Some(read) => read,
    };
    let endianess = match Endianess::from_marker(marker) {
        None => {
            return Err(Error::InvalidEndianess { marker });
        },
        Some(endianess) => endianess,
    };
    match decode_geometry_with_endianess(stream, next, endianess) {
        Err(error) => Err(error),
        Ok((geometry, _)) => Ok(geometry),
    }
}

/// Decodes a geometry, after its marker byte, at `pos`: the geometry and the
/// position after it.
fn decode_geometry_with_endianess(stream: &[u8], pos: usize, e: Endianess) -> (r: Result<
    (Geometry, usize),
    Error,
>)
    requires
        pos <= stream@.len(),
    ensures
        match r {
            Ok((geometry, next)) => {
                &&& pos <= next <= stream@.len()
                &&& ewkb_parse_body(stream@.skip(pos as int), e) == Ok::<_, Error>(
                    (geometry@, stream@.skip(next as int)),
                )
            },
            Err(error) => ewkb_parse_body(stream@.skip(pos as int), e) == Err::<
                (GeometryView, Seq<u8>),
                _,
            >(error),
        },
{
    let (code, after_code) = match take_u32(stream, pos, e) {
        None => {
            return Err(Error::UnexpectedEof);
        },
        Some(read) => read,
    };
    let flags = decode_flags(code)?;
    let (srid, after_srid) = if flags.with_srid {
        match take_u32(stream, after_code, e) {
            None => {
                return Err(Error::UnexpectedEof);
            },
            Some((srid, next)) => (Some(srid), next),
        }
    } else {
        (None, after_code)
    };
    let (mut geom, next) = decode_coordinates(flags.kind, stream, after_srid, e)?;
    geom.set_srid(srid);
    Ok((geom, next))
}

} // verus!
