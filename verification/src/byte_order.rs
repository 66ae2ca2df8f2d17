//! Fixed-width integers as byte strings, in either byte order.
//!
//! The conversions themselves are done by the `byteorder` crate; this module
//! states what they compute and proves that reading undoes writing.
use byteorder::{BigEndian, ByteOrder, LittleEndian, NativeEndian};
use vstd::prelude::*;
use vstd::slice::slice_subrange;
use vstd::std_specs::convert::FromSpecImpl;

verus! {

/// The byte order shared by all multi-byte fields of one encoded value.
#[derive(Debug, Clone, Copy, PartialEq, Eq, Structural)]
pub enum Endianess {
    BigEndian,
    LittleEndian,
}

/// Marker byte that announces big-endian fields.
pub const BIG_ENDIAN: u8 = 0;

/// Marker byte that announces little-endian fields.
pub const LITTLE_ENDIAN: u8 = 1;

/// The four bytes of `n`, most significant first.
#[verifier::opaque]
pub open spec fn u32_be_bytes(n: u32) -> Seq<u8> {
    seq![
        (n / 0x100_0000) as u8,
        (n / 0x1_0000 % 0x100) as u8,
        (n / 0x100 % 0x100) as u8,
        (n % 0x100) as u8,
    ]
}

/// The four bytes of `n`, least significant first.
pub open spec fn u32_le_bytes(n: u32) -> Seq<u8> {
    u32_be_bytes(n).reverse()
}

/// The number whose big-endian bytes are the first four of `b`.
#[verifier::opaque]
pub open spec fn u32_from_be_bytes(b: Seq<u8>) -> u32
    recommends
        b.len() >= 4,
{
    (b[0] * 0x100_0000 + b[1] * 0x1_0000 + b[2] * 0x100 + b[3]) as u32
}

/// The number whose little-endian bytes are the first four of `b`.
#[verifier::opaque]
pub open spec fn u32_from_le_bytes(b: Seq<u8>) -> u32
    recommends
        b.len() >= 4,
{
    (b[3] * 0x100_0000 + b[2] * 0x1_0000 + b[1] * 0x100 + b[0]) as u32
}

/// The eight bytes of `n`, most significant first.
pub open spec fn u64_be_bytes(n: u64) -> Seq<u8> {
    u32_be_bytes((n / 0x1_0000_0000) as u32) + u32_be_bytes((n % 0x1_0000_0000) as u32)
}

/// The eight bytes of `n`, least significant first.
pub open spec fn u64_le_bytes(n: u64) -> Seq<u8> {
    u32_le_bytes((n % 0x1_0000_0000) as u32) + u32_le_bytes((n / 0x1_0000_0000) as u32)
}

/// The number whose big-endian bytes are the first eight of `b`.
pub open spec fn u64_from_be_bytes(b: Seq<u8>) -> u64
    recommends
        b.len() >= 8,
{
    (u32_from_be_bytes(b) * 0x1_0000_0000 + u32_from_be_bytes(b.skip(4))) as u64
}

/// The number whose little-endian bytes are the first eight of `b`.
pub open spec fn u64_from_le_bytes(b: Seq<u8>) -> u64
    recommends
        b.len() >= 8,
{
    (u32_from_le_bytes(b.skip(4)) * 0x1_0000_0000 + u32_from_le_bytes(b)) as u64
}

/// The bytes of `n` in byte order `e`.
pub open spec fn u32_bytes(n: u32, e: Endianess) -> Seq<u8> {
    match e {
        Endianess::BigEndian => u32_be_bytes(n),
        Endianess::LittleEndian => u32_le_bytes(n),
    }
}

/// The bytes of `n` in byte order `e`.
pub open spec fn u64_bytes(n: u64, e: Endianess) -> Seq<u8> {
    match e {
        Endianess::BigEndian => u64_be_bytes(n),
        Endianess::LittleEndian => u64_le_bytes(n),
    }
}

/// The number that the first four bytes of `b` spell in byte order `e`.
pub open spec fn u32_from_bytes(b: Seq<u8>, e: Endianess) -> u32
    recommends
        b.len() >= 4,
{
    match e {
        Endianess::BigEndian => u32_from_be_bytes(b),
        Endianess::LittleEndian => u32_from_le_bytes(b),
    }
}

/// The number that the first eight bytes of `b` spell in byte order `e`.
pub open spec fn u64_from_bytes(b: Seq<u8>, e: Endianess) -> u64
    recommends
        b.len() >= 8,
{
    match e {
        Endianess::BigEndian => u64_from_be_bytes(b),
        Endianess::LittleEndian => u64_from_le_bytes(b),
    }
}

/// Writing a 32-bit number yields four bytes, and reading them back, whatever
/// follows them, yields the number.
pub proof fn lemma_u32_round_trip(n: u32, e: Endianess, rest: Seq<u8>)
    ensures
        u32_bytes(n, e).len() == 4,
        u32_from_bytes(u32_bytes(n, e) + rest, e) == n,
{
    reveal(u32_be_bytes);
    reveal(u32_from_be_bytes);
    reveal(u32_from_le_bytes);
    lemma_u32_digits(n);
    let be = u32_be_bytes(n);
    assert(be.len() == 4);
    assert(be[0] == n / 0x100_0000 && be[1] == n / 0x1_0000 % 0x100);
    assert(be[2] == n / 0x100 % 0x100 && be[3] == n % 0x100);
    match e {
        Endianess::BigEndian => {
            let b = be + rest;
            assert(b[0] == be[0] && b[1] == be[1] && b[2] == be[2] && b[3] == be[3]);
        },
        Endianess::LittleEndian => {
            let le = u32_le_bytes(n);
            assert(le.len() == 4);
            assert(le[0] == be[3] && le[1] == be[2] && le[2] == be[1] && le[3] == be[0]);
            let b = le + rest;
            assert(b[0] == le[0] && b[1] == le[1] && b[2] == le[2] && b[3] == le[3]);
        },
    }
}

/// A 32-bit number is the sum of its four base-256 digits.
proof fn lemma_u32_digits(n: u32)
    by (bit_vector)
    ensures
        n / 0x100_0000 < 0x100,
        (n / 0x100_0000) * 0x100_0000 + (n / 0x1_0000 % 0x100) * 0x1_0000 + (n / 0x100 % 0x100)
            * 0x100 + n % 0x100 == n,
{
}

/// Writing a 64-bit number yields eight bytes, and reading them back,
/// whatever follows them, yields the number.
pub proof fn lemma_u64_round_trip(n: u64, e: Endianess, rest: Seq<u8>)
    ensures
        u64_bytes(n, e).len() == 8,
        u64_from_bytes(u64_bytes(n, e) + rest, e) == n,
{
    let hi = (n / 0x1_0000_0000) as u32;
    let lo = (n % 0x1_0000_0000) as u32;
    match e {
        Endianess::BigEndian => {
            let tail = u32_be_bytes(lo) + rest;
            lemma_u32_round_trip(hi, e, tail);
            lemma_u32_round_trip(lo, e, rest);
            assert(u64_be_bytes(n) + rest =~= u32_be_bytes(hi) + tail);
            assert((u32_be_bytes(hi) + tail).skip(4) =~= tail);
        },
        Endianess::LittleEndian => {
            let tail = u32_le_bytes(hi) + rest;
            lemma_u32_round_trip(lo, e, tail);
            lemma_u32_round_trip(hi, e, rest);
            assert(u64_le_bytes(n) + rest =~= u32_le_bytes(lo) + tail);
            assert((u32_le_bytes(lo) + tail).skip(4) =~= tail);
        },
    }
}

/// `byteorder::BigEndian::read_u32`: the first four bytes of `buf`, taken as a
/// number with the most significant byte first. It panics on a shorter
/// buffer, which the precondition leaves out.
#[verifier::external_body]
fn read_u32_be(buf: &[u8]) -> (n: u32)
    requires
        buf@.len() >= 4,
    ensures
        n == u32_from_be_bytes(buf@),
{
    BigEndian::read_u32(buf)
}

/// `byteorder::LittleEndian::read_u32`: the first four bytes of `buf`, taken
/// as a number with the least significant byte first. It panics on a shorter
/// buffer, which the precondition leaves out.
#[verifier::external_body]
fn read_u32_le(buf: &[u8]) -> (n: u32)
    requires
        buf@.len() >= 4,
    ensures
        n == u32_from_le_bytes(buf@),
{
    LittleEndian::read_u32(buf)
}

/// `byteorder::BigEndian::read_u64`: the first eight bytes of `buf`, taken as
/// a number with the most significant byte first. It panics on a shorter
/// buffer, which the precondition leaves out.
#[verifier::external_body]
fn read_u64_be(buf: &[u8]) -> (n: u64)
    requires
        buf@.len() >= 8,
    ensures
        n == u64_from_be_bytes(buf@),
{
    BigEndian::read_u64(buf)
}

/// `byteorder::LittleEndian::read_u64`: the first eight bytes of `buf`, taken
/// as a number with the least significant byte first. It panics on a shorter
/// buffer, which the precondition leaves out.
#[verifier::external_body]
fn read_u64_le(buf: &[u8]) -> (n: u64)
    requires
        buf@.len() >= 8,
    ensures
        n == u64_from_le_bytes(buf@),
{
    LittleEndian::read_u64(buf)
}

/// `byteorder::BigEndian::write_u32` on a four-byte buffer: the buffer then
/// holds the bytes of `n`, most significant first.
#[verifier::external_body]
fn write_u32_be(n: u32) -> (b: [u8; 4])
    ensures
        b@ == u32_be_bytes(n),
{
    let mut b = [0u8; 4];
    BigEndian::write_u32(&mut b, n);
    b
}

/// `byteorder::LittleEndian::write_u32` on a four-byte buffer: the buffer
/// then holds the bytes of `n`, least significant first.
#[verifier::external_body]
fn write_u32_le(n: u32) -> (b: [u8; 4])
    ensures
        b@ == u32_le_bytes(n),
{
    let mut b = [0u8; 4];
    LittleEndian::write_u32(&mut b, n);
    b
}

/// `byteorder::BigEndian::write_u64` on an eight-byte buffer: the buffer then
/// holds the bytes of `n`, most significant first.
#[verifier::external_body]
fn write_u64_be(n: u64) -> (b: [u8; 8])
    ensures
        b@ == u64_be_bytes(n),
{
    let mut b = [0u8; 8];
    BigEndian::write_u64(&mut b, n);
    b
}

/// `byteorder::LittleEndian::write_u64` on an eight-byte buffer: the buffer
/// then holds the bytes of `n`, least significant first.
#[verifier::external_body]
fn write_u64_le(n: u64) -> (b: [u8; 8])
    ensures
        b@ == u64_le_bytes(n),
{
    let mut b = [0u8; 8];
    LittleEndian::write_u64(&mut b, n);
    b
}

/// `byteorder::NativeEndian::read_u16`: the first two bytes of `buf` in the
/// byte order of the machine, which is one of the two orders. It panics on a
/// shorter buffer, which the precondition leaves out.
#[verifier::external_body]
fn read_u16_native(buf: &[u8]) -> (n: u16)
    requires
        buf@.len() >= 2,
    ensures
        n == buf@[0] * 0x100 + buf@[1] || n == buf@[1] * 0x100 + buf@[0],
{
    NativeEndian::read_u16(buf)
}

/// The byte order of the machine that runs the library: the order in which
/// the machine reads the bytes 0 and 1 as one number.
pub fn native_endianess() -> Endianess {
    let probe: [u8; 2] = [0, 1];
    endianess_of_probe(read_u16_native(probe.as_slice()))
}

/// The byte order that a reading of the bytes 0 and 1 as one number reveals.
/// Read with the most significant byte first they are the number 1, and
/// with the least significant first the number 256.
pub open spec fn order_of_probe(probe: u16) -> Endianess {
    if probe == 1 {
        Endianess::BigEndian
    } else {
        Endianess::LittleEndian
    }
}

/// The byte order that a reading of the bytes 0 and 1 as one number reveals.
pub fn endianess_of_probe(probe: u16) -> (e: Endianess)
    ensures
        e == order_of_probe(probe),
{
    if probe == 1 {
        Endianess::BigEndian
    } else {
        Endianess::LittleEndian
    }
}

impl Endianess {
    /// The marker byte that announces this byte order in an encoded value.
    pub open spec fn marker(self) -> u8 {
        match self {
            Endianess::BigEndian => BIG_ENDIAN,
            Endianess::LittleEndian => LITTLE_ENDIAN,
        }
    }

    /// The marker byte that announces this byte order in an encoded value.
    pub fn to_marker(self) -> (m: u8)
        ensures
            m == self.marker(),
    {
        match self {
            Endianess::BigEndian => BIG_ENDIAN,
            Endianess::LittleEndian => LITTLE_ENDIAN,
        }
    }

    /// The byte order that a marker byte announces, if it announces one.
    pub open spec fn of_marker(m: u8) -> Option<Endianess> {
        if m == BIG_ENDIAN {
            Some(Endianess::BigEndian)
        } else if m == LITTLE_ENDIAN {
            Some(Endianess::LittleEndian)
        } else {
            None
        }
    }

    /// The byte order that a marker byte announces: `None` for any byte
    /// other than the two markers.
    pub fn from_marker(m: u8) -> (e: Option<Endianess>)
        ensures
            e == Self::of_marker(m),
    {
        if m == BIG_ENDIAN {
            Some(Endianess::BigEndian)
        } else if m == LITTLE_ENDIAN {
            Some(Endianess::LittleEndian)
        } else {
            None
        }
    }
}

/// Appending is associative.
pub proof fn lemma_append_assoc(a: Seq<u8>, b: Seq<u8>, c: Seq<u8>)
    ensures
        (a + b) + c == a + (b + c),
{
    assert((a + b) + c =~= a + (b + c));
}

/// What follows the `n` bytes `a` in `a + b` is `b`.
pub proof fn lemma_skip_prefix(a: Seq<u8>, b: Seq<u8>)
    ensures
        (a + b).skip(a.len() as int) == b,
{
    assert((a + b).skip(a.len() as int) =~= b);
}

/// Appends `bytes` to `out`.
pub(crate) fn put_bytes(out: &mut Vec<u8>, bytes: &[u8])
    ensures
        final(out)@ == old(out)@ + bytes@,
{
    let mut i: usize = 0;
    while i < bytes.len()
        invariant
            i <= bytes.len(),
            out@ == old(out)@ + bytes@.take(i as int),
        decreases bytes.len() - i,
    {
        out.push(bytes[i]);
        assert(bytes@.take(i + 1) =~= bytes@.take(i as int).push(bytes@[i as int]));
        i += 1;
    }
    assert(bytes@.take(i as int) =~= bytes@);
}

/// Appends one byte to `out`.
pub(crate) fn put_u8(out: &mut Vec<u8>, byte: u8)
    ensures
        final(out)@ == old(out)@ + seq![byte],
{
    out.push(byte);
    assert(out@ =~= old(out)@ + seq![byte]);
}

/// Appends the four bytes of `n` in byte order `e` to `out`.
pub(crate) fn put_u32(out: &mut Vec<u8>, n: u32, e: Endianess)
    ensures
        final(out)@ == old(out)@ + u32_bytes(n, e),
{
    let b = match e {
        Endianess::BigEndian => write_u32_be(n),
        Endianess::LittleEndian => write_u32_le(n),
    };
    put_bytes(out, b.as_slice());
}

/// Appends the eight bytes of `n` in byte order `e` to `out`.
pub(crate) fn put_u64(out: &mut Vec<u8>, n: u64, e: Endianess)
    ensures
        final(out)@ == old(out)@ + u64_bytes(n, e),
{
    let b = match e {
        Endianess::BigEndian => write_u64_be(n),
        Endianess::LittleEndian => write_u64_le(n),
    };
    put_bytes(out, b.as_slice());
}

/// What reading one byte from the front of `b` gives: the byte and what
/// follows it, or nothing where `b` is empty.
pub open spec fn parse_u8(b: Seq<u8>) -> Option<(u8, Seq<u8>)> {
    if b.len() < 1 {
        None
    } else {
        Some((b[0], b.skip(1)))
    }
}

/// What reading a 32-bit number in byte order `e` from the front of `b`
/// gives: the number and what follows it, or nothing where `b` is too short.
pub open spec fn parse_u32(b: Seq<u8>, e: Endianess) -> Option<(u32, Seq<u8>)> {
    if b.len() < 4 {
        None
    } else {
        Some((u32_from_bytes(b, e), b.skip(4)))
    }
}

/// What reading a 64-bit number in byte order `e` from the front of `b`
/// gives: the number and what follows it, or nothing where `b` is too short.
pub open spec fn parse_u64(b: Seq<u8>, e: Endianess) -> Option<(u64, Seq<u8>)> {
    if b.len() < 8 {
        None
    } else {
        Some((u64_from_bytes(b, e), b.skip(8)))
    }
}

/// How the result of an executable read at `pos` stands for a parse of the
/// bytes from `pos` on: the same value, and the position of what follows.
pub open spec fn reads<T>(
    bytes: Seq<u8>,
    pos: usize,
    got: Option<(T, usize)>,
    parsed: Option<(T, Seq<u8>)>,
) -> bool {
    match got {
        Some((value, next)) => {
            &&& pos <= next <= bytes.len()
            &&& parsed == Some((value, bytes.skip(next as int)))
        },
        None => parsed is None,
    }
}

/// Reads one byte at `pos`.
pub(crate) fn take_u8(bytes: &[u8], pos: usize) -> (r: Option<(u8, usize)>)
    requires
        pos <= bytes@.len(),
    ensures
        reads(bytes@, pos, r, parse_u8(bytes@.skip(pos as int))),
{
    if bytes.len() - pos < 1 {
        return None;
    }
    assert(bytes@.skip(pos as int).skip(1) =~= bytes@.skip(pos + 1));
    Some((bytes[pos], pos + 1))
}

/// Reads a 32-bit number in byte order `e` at `pos`.
pub(crate) fn take_u32(bytes: &[u8], pos: usize, e: Endianess) -> (r: Option<(u32, usize)>)
    requires
        pos <= bytes@.len(),
    ensures
        reads(bytes@, pos, r, parse_u32(bytes@.skip(pos as int), e)),
{
    if bytes.len() - pos < 4 {
        return None;
    }
    let field = slice_subrange(bytes, pos, pos + 4);
    let n = match e {
        Endianess::BigEndian => read_u32_be(field),
        Endianess::LittleEndian => read_u32_le(field),
    };
    proof {
        reveal(u32_from_be_bytes);
        reveal(u32_from_le_bytes);
        let rest = bytes@.skip(pos as int);
        assert(forall|i: int| 0 <= i < 4 ==> field@[i] == rest[i]);
        assert(rest.skip(4) =~= bytes@.skip(pos + 4));
    }
    Some((n, pos + 4))
}

/// Reads a 64-bit number in byte order `e` at `pos`.
pub(crate) fn take_u64(bytes: &[u8], pos: usize, e: Endianess) -> (r: Option<(u64, usize)>)
    requires
        pos <= bytes@.len(),
    ensures
        reads(bytes@, pos, r, parse_u64(bytes@.skip(pos as int), e)),
{
    if bytes.len() - pos < 8 {
        return None;
    }
    let field = slice_subrange(bytes, pos, pos + 8);
    let n = match e {
        Endianess::BigEndian => read_u64_be(field),
        Endianess::LittleEndian => read_u64_le(field),
    };
    proof {
        reveal(u32_from_be_bytes);
        reveal(u32_from_le_bytes);
        let rest = bytes@.skip(pos as int);
        assert(forall|i: int| 0 <= i < 8 ==> field@[i] == rest[i]);
        assert(forall|i: int| 0 <= i < 4 ==> field@.skip(4)[i] == rest.skip(4)[i]);
        assert(rest.skip(8) =~= bytes@.skip(pos + 8));
    }
    Some((n, pos + 8))
}

impl From<Endianess> for u8 {
    fn from(value: Endianess) -> (r: Self) {
        value.to_marker()
    }
}

impl FromSpecImpl<Endianess> for u8 {
    open spec fn obeys_from_spec() -> bool {
        true
    }

    open spec fn from_spec(value: Endianess) -> Self {
        value.marker()
    }
}

} // verus!
