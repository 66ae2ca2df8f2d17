//! What the two formats have in common for a caller: a value can be encoded
//! into bytes and decoded from bytes.
use crate::byte_order::Endianess;
use crate::error::Error;
use crate::types::GeometryView;
use vstd::prelude::*;

verus! {

/// How the result of an encoding stands to the stream it was to go to. On
/// success the expected bytes were appended. On failure nothing was, and the
/// error is the one for which there is no encoding.
pub open spec fn appended(
    expected: Result<Seq<u8>, Error>,
    before: Seq<u8>,
    after: Seq<u8>,
    r: Result<(), Error>,
) -> bool {
    match r {
        Ok(_) => expected is Ok && after == before + expected->Ok_0,
        Err(error) => expected == Err::<Seq<u8>, _>(error) && after == before,
    }
}

/// How the result of an encoding into fresh bytes stands to the encoding
/// that was expected: the same bytes, or the same error.
pub open spec fn produced(expected: Result<Seq<u8>, Error>, r: Result<Vec<u8>, Error>) -> bool {
    match r {
        Ok(bytes) => expected == Ok::<_, Error>(bytes@),
        Err(error) => expected == Err::<Seq<u8>, _>(error),
    }
}

/// A value that has an encoding in each byte order.
pub trait Encodable {
    /// The encoding of the value in byte order `e`, or the error for which
    /// it has none.
    spec fn encoding(&self, e: Endianess) -> Result<Seq<u8>, Error>;

    /// Appends the encoding of the value, in the byte order of the machine,
    /// to `stream`.
    fn encode(&self, stream: &mut Vec<u8>) -> (r: Result<(), Error>)
        ensures
            appended(self.encoding(Endianess::BigEndian), old(stream)@, final(stream)@, r)
                || appended(
                self.encoding(Endianess::LittleEndian),
                old(stream)@,
                final(stream)@,
                r,
            ),
    ;

    /// Encode into a vector of bytes.
    fn encode_to_vec(&self) -> (r: Result<Vec<u8>, Error>)
        ensures
            produced(self.encoding(Endianess::BigEndian), r) || produced(
                self.encoding(Endianess::LittleEndian),
                r,
            ),
    {
        let mut bytes: Vec<u8> = Vec::new();
        self.encode(&mut bytes)?;
        assert(forall|s: Seq<u8>| Seq::<u8>::empty() + s =~= s);
        Ok(bytes)
    }
}

/// A value that can be read from bytes.
pub trait Decodable: Sized {
    /// The geometry that the value stands for.
    spec fn geometry(&self) -> GeometryView;

    /// The geometry that the bytes start with, or the error that they hold.
    spec fn decoding(stream: Seq<u8>) -> Result<GeometryView, Error>;

    /// Decodes the value that the bytes start with.
    fn decode(stream: &[u8]) -> (r: Result<Self, Error>)
        ensures
            match r {
                Ok(value) => Self::decoding(stream@) == Ok::<_, Error>(value.geometry()),
                Err(error) => Self::decoding(stream@) == Err::<GeometryView, _>(error),
            },
    ;

    /// Decode from a slice of bytes.
    fn decode_from_slice(slice: &[u8]) -> (r: Result<Self, Error>)
        ensures
            match r {
                Ok(value) => Self::decoding(slice@) == Ok::<_, Error>(value.geometry()),
                Err(error) => Self::decoding(slice@) == Err::<GeometryView, _>(error),
            },
    {
        Self::decode(slice)
    }
}

} // verus!
