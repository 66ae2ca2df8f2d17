//! The coordinate payload, which both wire formats share.
//!
//! A coordinate tuple is written as its scalars, eight bytes each, with no
//! count before them: the kind of the geometry fixes how many there are. A
//! sequence, at each of the three levels of nesting, is written as a count of
//! four bytes and then its items.
use crate::byte_order::{
    lemma_u32_round_trip, lemma_u64_round_trip, parse_u32, parse_u64, put_u32, put_u64, take_u32,
    take_u64, u32_bytes, u64_bytes, Endianess,
};
use crate::error::Error;
use crate::types::{
    all_closed, parts_countable, parts_have_arity, points_have_arity, rings_closed, rings_countable,
    rings_have_arity, CoordinatesRef, Geometry, GeometryKind, GeometryView, LineString, LineStringZ,
    MultiLineString, MultiLineStringZ, MultiPoint, MultiPointZ, MultiPolygon, MultiPolygonZ,
    Payload, Point, PointZ, Polygon, PolygonZ, Shape, Vector, VectorArray, VectorMatrix,
    VectorTensor,
};
use crate::DEFAULT_SRID;
use vstd::prelude::*;

verus! {

/// The count that is written for a sequence of `len` items: `len` itself as
/// long as four bytes hold it, and its low 32 bits beyond that.
pub open spec fn count(len: nat) -> u32 {
    (len % 0x1_0000_0000) as u32
}

/// The bytes of a coordinate tuple.
pub open spec fn tuple_bytes(p: Seq<u64>, e: Endianess) -> Seq<u8>
    decreases p.len(),
{
    if p.len() == 0 {
        Seq::empty()
    } else {
        u64_bytes(p.first(), e) + tuple_bytes(p.drop_first(), e)
    }
}

/// The bytes of the tuples of a point sequence, without their count.
pub open spec fn points_bytes(a: Seq<Seq<u64>>, e: Endianess) -> Seq<u8>
    decreases a.len(),
{
    if a.len() == 0 {
        Seq::empty()
    } else {
        tuple_bytes(a.first(), e) + points_bytes(a.drop_first(), e)
    }
}

/// The bytes of a point sequence: its count, then its tuples.
pub open spec fn array_bytes(a: Seq<Seq<u64>>, e: Endianess) -> Seq<u8> {
    u32_bytes(count(a.len()), e) + points_bytes(a, e)
}

/// The bytes of the point sequences of a ring sequence, without their count.
pub open spec fn rings_bytes(m: Seq<Seq<Seq<u64>>>, e: Endianess) -> Seq<u8>
    decreases m.len(),
{
    if m.len() == 0 {
        Seq::empty()
    } else {
        array_bytes(m.first(), e) + rings_bytes(m.drop_first(), e)
    }
}

/// The bytes of a ring sequence: its count, then its point sequences.
pub open spec fn matrix_bytes(m: Seq<Seq<Seq<u64>>>, e: Endianess) -> Seq<u8> {
    u32_bytes(count(m.len()), e) + rings_bytes(m, e)
}

/// The bytes of the ring sequences of a collection, without their count.
pub open spec fn parts_bytes(t: Seq<Seq<Seq<Seq<u64>>>>, e: Endianess) -> Seq<u8>
    decreases t.len(),
{
    if t.len() == 0 {
        Seq::empty()
    } else {
        matrix_bytes(t.first(), e) + parts_bytes(t.drop_first(), e)
    }
}

/// The bytes of a collection of ring sequences: its count, then its ring
/// sequences.
pub open spec fn tensor_bytes(t: Seq<Seq<Seq<Seq<u64>>>>, e: Endianess) -> Seq<u8> {
    u32_bytes(count(t.len()), e) + parts_bytes(t, e)
}

/// What reading a tuple of `dimension` scalars from the front of `b` gives:
/// the tuple and what follows it, or nothing where `b` ends too early.
pub open spec fn parse_tuple(b: Seq<u8>, dimension: nat, e: Endianess) -> Option<
    (Seq<u64>, Seq<u8>),
>
    decreases dimension,
{
    if dimension == 0 {
        Some((Seq::empty(), b))
    } else {
        match parse_u64(b, e) {
            None => None,
            Some((x, rest)) => match parse_tuple(rest, (dimension - 1) as nat, e) {
                None => None,
                Some((xs, rest)) => Some((seq![x] + xs, rest)),
            },
        }
    }
}

/// What reading `n` tuples from the front of `b` gives.
pub open spec fn parse_points(b: Seq<u8>, n: nat, dimension: nat, e: Endianess) -> Option<
    (Seq<Seq<u64>>, Seq<u8>),
>
    decreases n,
{
    if n == 0 {
        Some((Seq::empty(), b))
    } else {
        match parse_tuple(b, dimension, e) {
            None => None,
            Some((x, rest)) => match parse_points(rest, (n - 1) as nat, dimension, e) {
                None => None,
                Some((xs, rest)) => Some((seq![x] + xs, rest)),
            },
        }
    }
}

/// What reading a point sequence from the front of `b` gives.
pub open spec fn parse_array(b: Seq<u8>, dimension: nat, e: Endianess) -> Option<
    (Seq<Seq<u64>>, Seq<u8>),
> {
    match parse_u32(b, e) {
        None => None,
        Some((n, rest)) => parse_points(rest, n as nat, dimension, e),
    }
}

/// What reading `n` point sequences from the front of `b` gives.
pub open spec fn parse_rings(b: Seq<u8>, n: nat, dimension: nat, e: Endianess) -> Option<
    (Seq<Seq<Seq<u64>>>, Seq<u8>),
>
    decreases n,
{
    if n == 0 {
        Some((Seq::empty(), b))
    } else {
        match parse_array(b, dimension, e) {
            None => None,
            Some((x, rest)) => match parse_rings(rest, (n - 1) as nat, dimension, e) {
                None => None,
                Some((xs, rest)) => Some((seq![x] + xs, rest)),
            },
        }
    }
}

/// What reading a ring sequence from the front of `b` gives.
pub open spec fn parse_matrix(b: Seq<u8>, dimension: nat, e: Endianess) -> Option<
    (Seq<Seq<Seq<u64>>>, Seq<u8>),
> {
    match parse_u32(b, e) {
        None => None,
        Some((n, rest)) => parse_rings(rest, n as nat, dimension, e),
    }
}

/// What reading `n` ring sequences from the front of `b` gives.
pub open spec fn parse_parts(b: Seq<u8>, n: nat, dimension: nat, e: Endianess) -> Option<
    (Seq<Seq<Seq<Seq<u64>>>>, Seq<u8>),
>
    decreases n,
{
    if n == 0 {
        Some((Seq::empty(), b))
    } else {
        match parse_matrix(b, dimension, e) {
            None => None,
            Some((x, rest)) => match parse_parts(rest, (n - 1) as nat, dimension, e) {
                None => None,
                Some((xs, rest)) => Some((seq![x] + xs, rest)),
            },
        }
    }
}

/// What reading a collection of ring sequences from the front of `b` gives.
pub open spec fn parse_tensor(b: Seq<u8>, dimension: nat, e: Endianess) -> Option<
    (Seq<Seq<Seq<Seq<u64>>>>, Seq<u8>),
> {
    match parse_u32(b, e) {
        None => None,
        Some((n, rest)) => parse_parts(rest, n as nat, dimension, e),
    }
}

/// Reading a written count back, whatever follows it, yields the count, as
/// long as four bytes can hold it.
pub proof fn lemma_count_round_trip(len: nat, e: Endianess, rest: Seq<u8>)
    requires
        len <= u32::MAX,
    ensures
        parse_u32(u32_bytes(count(len), e) + rest, e) == Some((len as u32, rest)),
{
    lemma_u32_round_trip(count(len), e, rest);
    assert((u32_bytes(count(len), e) + rest).skip(4) =~= rest);
}

/// Reading a written tuple back, whatever follows it, yields the tuple.
pub proof fn lemma_tuple_round_trip(p: Seq<u64>, e: Endianess, rest: Seq<u8>)
    ensures
        parse_tuple(tuple_bytes(p, e) + rest, p.len(), e) == Some((p, rest)),
    decreases p.len(),
{
    if p.len() == 0 {
        assert(tuple_bytes(p, e) + rest =~= rest);
        assert(p =~= Seq::empty());
    } else {
        let tail = tuple_bytes(p.drop_first(), e) + rest;
        lemma_u64_round_trip(p.first(), e, tail);
        assert(tuple_bytes(p, e) + rest =~= u64_bytes(p.first(), e) + tail);
        assert((u64_bytes(p.first(), e) + tail).skip(8) =~= tail);
        lemma_tuple_round_trip(p.drop_first(), e, rest);
        assert(seq![p.first()] + p.drop_first() =~= p);
    }
}

/// Reading written tuples back, whatever follows them, yields the tuples.
pub proof fn lemma_points_round_trip(
    a: Seq<Seq<u64>>,
    dimension: nat,
    e: Endianess,
    rest: Seq<u8>,
)
    requires
        points_have_arity(a, dimension),
    ensures
        parse_points(points_bytes(a, e) + rest, a.len(), dimension, e) == Some((a, rest)),
    decreases a.len(),
{
    if a.len() == 0 {
        assert(points_bytes(a, e) + rest =~= rest);
        assert(a =~= Seq::empty());
    } else {
        let first = a.first();
        let others = a.drop_first();
        let tail = points_bytes(others, e) + rest;
        assert(first.len() == dimension) by {
            assert(a[0] == first);
        }
        assert(points_have_arity(others, dimension)) by {
            assert forall|i: int| 0 <= i < others.len() implies (#[trigger] others[i]).len()
                == dimension by {
                assert(others[i] == a[i + 1]);
            }
        }
        lemma_tuple_round_trip(first, e, tail);
        assert(points_bytes(a, e) + rest =~= tuple_bytes(first, e) + tail);
        lemma_points_round_trip(others, dimension, e, rest);
        assert(seq![a.first()] + a.drop_first() =~= a);
    }
}

/// Reading a written point sequence back, whatever follows it, yields the
/// sequence.
pub proof fn lemma_array_round_trip(a: Seq<Seq<u64>>, dimension: nat, e: Endianess, rest: Seq<u8>)
    requires
        points_have_arity(a, dimension),
        a.len() <= u32::MAX,
    ensures
        parse_array(array_bytes(a, e) + rest, dimension, e) == Some((a, rest)),
{
    let tail = points_bytes(a, e) + rest;
    lemma_count_round_trip(a.len(), e, tail);
    assert(array_bytes(a, e) + rest =~= u32_bytes(count(a.len()), e) + tail);
    lemma_points_round_trip(a, dimension, e, rest);
}

/// Reading written point sequences back, whatever follows them, yields the
/// sequences.
pub proof fn lemma_rings_round_trip(
    m: Seq<Seq<Seq<u64>>>,
    dimension: nat,
    e: Endianess,
    rest: Seq<u8>,
)
    requires
        rings_have_arity(m, dimension),
        rings_countable(m),
    ensures
        parse_rings(rings_bytes(m, e) + rest, m.len(), dimension, e) == Some((m, rest)),
    decreases m.len(),
{
    if m.len() == 0 {
        assert(rings_bytes(m, e) + rest =~= rest);
        assert(m =~= Seq::empty());
    } else {
        let first = m.first();
        let others = m.drop_first();
        let tail = rings_bytes(others, e) + rest;
        assert(points_have_arity(first, dimension) && first.len() <= u32::MAX) by {
            assert(m[0] == first);
        }
        assert(rings_have_arity(others, dimension)) by {
            assert forall|i: int| 0 <= i < others.len() implies points_have_arity(
                #[trigger] others[i],
                dimension,
            ) by {
                assert(others[i] == m[i + 1]);
            }
        }
        assert(rings_countable(others)) by {
            assert forall|i: int| 0 <= i < others.len() implies (#[trigger] others[i]).len()
                <= u32::MAX by {
                assert(others[i] == m[i + 1]);
            }
        }
        lemma_array_round_trip(first, dimension, e, tail);
        assert(rings_bytes(m, e) + rest =~= array_bytes(first, e) + tail);
        lemma_rings_round_trip(others, dimension, e, rest);
        assert(seq![m.first()] + m.drop_first() =~= m);
    }
}

/// Reading a written ring sequence back, whatever follows it, yields the
/// sequence.
pub proof fn lemma_matrix_round_trip(
    m: Seq<Seq<Seq<u64>>>,
    dimension: nat,
    e: Endianess,
    rest: Seq<u8>,
)
    requires
        rings_have_arity(m, dimension),
        rings_countable(m),
        m.len() <= u32::MAX,
    ensures
        parse_matrix(matrix_bytes(m, e) + rest, dimension, e) == Some((m, rest)),
{
    let tail = rings_bytes(m, e) + rest;
    lemma_count_round_trip(m.len(), e, tail);
    assert(matrix_bytes(m, e) + rest =~= u32_bytes(count(m.len()), e) + tail);
    lemma_rings_round_trip(m, dimension, e, rest);
}

/// Reading written ring sequences back, whatever follows them, yields the
/// sequences.
pub proof fn lemma_parts_round_trip(
    t: Seq<Seq<Seq<Seq<u64>>>>,
    dimension: nat,
    e: Endianess,
    rest: Seq<u8>,
)
    requires
        parts_have_arity(t, dimension),
        parts_countable(t),
    ensures
        parse_parts(parts_bytes(t, e) + rest, t.len(), dimension, e) == Some((t, rest)),
    decreases t.len(),
{
    if t.len() == 0 {
        assert(parts_bytes(t, e) + rest =~= rest);
        assert(t =~= Seq::empty());
    } else {
        let first = t.first();
        let others = t.drop_first();
        let tail = parts_bytes(others, e) + rest;
        assert(rings_have_arity(first, dimension) && rings_countable(first) && first.len()
            <= u32::MAX) by {
            assert(t[0] == first);
        }
        assert(parts_have_arity(others, dimension)) by {
            assert forall|i: int| 0 <= i < others.len() implies rings_have_arity(
                #[trigger] others[i],
                dimension,
            ) by {
                assert(others[i] == t[i + 1]);
            }
        }
        assert(parts_countable(others)) by {
            assert forall|i: int| 0 <= i < others.len() implies (#[trigger] others[i]).len()
                <= u32::MAX && rings_countable(others[i]) by {
                assert(others[i] == t[i + 1]);
            }
        }
        lemma_matrix_round_trip(first, dimension, e, tail);
        assert(parts_bytes(t, e) + rest =~= matrix_bytes(first, e) + tail);
        lemma_parts_round_trip(t.drop_first(), dimension, e, rest);
        assert(seq![t.first()] + t.drop_first() =~= t);
    }
}

/// Reading a written collection of ring sequences back, whatever follows it,
/// yields the collection.
pub proof fn lemma_tensor_round_trip(
    t: Seq<Seq<Seq<Seq<u64>>>>,
    dimension: nat,
    e: Endianess,
    rest: Seq<u8>,
)
    requires
        parts_have_arity(t, dimension),
        parts_countable(t),
        t.len() <= u32::MAX,
    ensures
        parse_tensor(tensor_bytes(t, e) + rest, dimension, e) == Some((t, rest)),
{
    let tail = parts_bytes(t, e) + rest;
    lemma_count_round_trip(t.len(), e, tail);
    assert(tensor_bytes(t, e) + rest =~= u32_bytes(count(t.len()), e) + tail);
    lemma_parts_round_trip(t, dimension, e, rest);
}

/// The bytes of a tuple with one more scalar are those of the tuple, then
/// those of the scalar.
pub proof fn lemma_tuple_bytes_push(p: Seq<u64>, last: u64, e: Endianess)
    ensures
        tuple_bytes(p.push(last), e) == tuple_bytes(p, e) + u64_bytes(last, e),
    decreases p.len(),
{
    if p.len() == 0 {
        assert(p.push(last).drop_first() =~= p);
        assert(tuple_bytes(p.push(last), e) =~= tuple_bytes(p, e) + u64_bytes(last, e));
    } else {
        lemma_tuple_bytes_push(p.drop_first(), last, e);
        assert(p.push(last).drop_first() =~= p.drop_first().push(last));
        assert(tuple_bytes(p.push(last), e) =~= tuple_bytes(p, e) + u64_bytes(last, e));
    }
}

/// The bytes of tuples with one more tuple are those of the tuples, then those
/// of the one.
pub proof fn lemma_points_bytes_push(a: Seq<Seq<u64>>, last: Seq<u64>, e: Endianess)
    ensures
        points_bytes(a.push(last), e) == points_bytes(a, e) + tuple_bytes(last, e),
    decreases a.len(),
{
    if a.len() == 0 {
        assert(a.push(last).drop_first() =~= a);
        assert(points_bytes(a.push(last), e) =~= points_bytes(a, e) + tuple_bytes(last, e));
    } else {
        lemma_points_bytes_push(a.drop_first(), last, e);
        assert(a.push(last).drop_first() =~= a.drop_first().push(last));
        assert(points_bytes(a.push(last), e) =~= points_bytes(a, e) + tuple_bytes(last, e));
    }
}

/// The bytes of point sequences with one more are those of the sequences,
/// then those of the one.
pub proof fn lemma_rings_bytes_push(m: Seq<Seq<Seq<u64>>>, last: Seq<Seq<u64>>, e: Endianess)
    ensures
        rings_bytes(m.push(last), e) == rings_bytes(m, e) + array_bytes(last, e),
    decreases m.len(),
{
    if m.len() == 0 {
        assert(m.push(last).drop_first() =~= m);
        assert(rings_bytes(m.push(last), e) =~= rings_bytes(m, e) + array_bytes(last, e));
    } else {
        lemma_rings_bytes_push(m.drop_first(), last, e);
        assert(m.push(last).drop_first() =~= m.drop_first().push(last));
        assert(rings_bytes(m.push(last), e) =~= rings_bytes(m, e) + array_bytes(last, e));
    }
}

/// The bytes of ring sequences with one more are those of the sequences, then
/// those of the one.
pub proof fn lemma_parts_bytes_push(
    t: Seq<Seq<Seq<Seq<u64>>>>,
    last: Seq<Seq<Seq<u64>>>,
    e: Endianess,
)
    ensures
        parts_bytes(t.push(last), e) == parts_bytes(t, e) + matrix_bytes(last, e),
    decreases t.len(),
{
    if t.len() == 0 {
        assert(t.push(last).drop_first() =~= t);
        assert(parts_bytes(t.push(last), e) =~= parts_bytes(t, e) + matrix_bytes(last, e));
    } else {
        lemma_parts_bytes_push(t.drop_first(), last, e);
        assert(t.push(last).drop_first() =~= t.drop_first().push(last));
        assert(parts_bytes(t.push(last), e) =~= parts_bytes(t, e) + matrix_bytes(last, e));
    }
}

/// The count that is written for a sequence of `len` items.
fn count_of(len: usize) -> (n: u32)
    ensures
        n == count(len as nat),
{
    let low: u64 = len as u64 % 0x1_0000_0000;
    low as u32
}

/// Appends the bytes of a coordinate tuple to `stream`.
pub fn encode_vector<const N: usize>(vector: &Vector<N, u64>, e: Endianess, stream: &mut Vec<u8>)
    ensures
        final(stream)@ == old(stream)@ + tuple_bytes(vector@, e),
{
    let mut i: usize = 0;
    assert(vector@.take(0) =~= Seq::empty());
    assert(stream@ =~= old(stream)@ + tuple_bytes(vector@.take(0), e));
    while i < N
        invariant
            i <= N,
            vector@.len() == N,
            stream@ == old(stream)@ + tuple_bytes(vector@.take(i as int), e),
        decreases N - i,
    {
        let ghost before = stream@;
        put_u64(stream, vector.0[i], e);
        proof {
            lemma_tuple_bytes_push(vector@.take(i as int), vector@[i as int], e);
            assert(vector@.take(i + 1) =~= vector@.take(i as int).push(vector@[i as int]));
            assert(stream@ =~= old(stream)@ + tuple_bytes(vector@.take(i + 1), e));
        }
        i += 1;
    }
    assert(vector@.take(i as int) =~= vector@);
}

/// Appends the bytes of a point sequence to `stream`: its count, then its
/// tuples.
pub fn encode_array<const N: usize>(
    array: &VectorArray<N, u64>,
    e: Endianess,
    stream: &mut Vec<u8>,
)
    ensures
        final(stream)@ == old(stream)@ + array_bytes(array@, e),
{
    let n = array.0.len();
    put_u32(stream, count_of(n), e);
    let ghost start = stream@;
    let mut i: usize = 0;
    assert(array@.take(0) =~= Seq::empty());
    assert(stream@ =~= start + points_bytes(array@.take(0), e));
    while i < n
        invariant
            i <= n,
            n == array.0@.len(),
            stream@ == start + points_bytes(array@.take(i as int), e),
        decreases n - i,
    {
        encode_vector(&array.0[i], e, stream);
        proof {
            lemma_points_bytes_push(array@.take(i as int), array@[i as int], e);
            assert(array@.take(i + 1) =~= array@.take(i as int).push(array@[i as int]));
            assert(stream@ =~= start + points_bytes(array@.take(i + 1), e));
        }
        i += 1;
    }
    assert(array@.take(i as int) =~= array@);
    assert(stream@ =~= old(stream)@ + array_bytes(array@, e));
}

/// Appends the bytes of a ring sequence to `stream`: its count, then its
/// point sequences.
pub fn encode_matrix<const N: usize>(
    matrix: &VectorMatrix<N, u64>,
    e: Endianess,
    stream: &mut Vec<u8>,
)
    ensures
        final(stream)@ == old(stream)@ + matrix_bytes(matrix@, e),
{
    let n = matrix.0.len();
    put_u32(stream, count_of(n), e);
    let ghost start = stream@;
    let mut i: usize = 0;
    assert(matrix@.take(0) =~= Seq::empty());
    assert(stream@ =~= start + rings_bytes(matrix@.take(0), e));
    while i < n
        invariant
            i <= n,
            n == matrix.0@.len(),
            stream@ == start + rings_bytes(matrix@.take(i as int), e),
        decreases n - i,
    {
        encode_array(&matrix.0[i], e, stream);
        proof {
            lemma_rings_bytes_push(matrix@.take(i as int), matrix@[i as int], e);
            assert(matrix@.take(i + 1) =~= matrix@.take(i as int).push(matrix@[i as int]));
            assert(stream@ =~= start + rings_bytes(matrix@.take(i + 1), e));
        }
        i += 1;
    }
    assert(matrix@.take(i as int) =~= matrix@);
    assert(stream@ =~= old(stream)@ + matrix_bytes(matrix@, e));
}

/// Appends the bytes of a collection of ring sequences to `stream`: its
/// count, then its ring sequences.
pub fn encode_tensor<const N: usize>(
    tensor: &VectorTensor<N, u64>,
    e: Endianess,
    stream: &mut Vec<u8>,
)
    ensures
        final(stream)@ == old(stream)@ + tensor_bytes(tensor@, e),
{
    let n = tensor.0.len();
    put_u32(stream, count_of(n), e);
    let ghost start = stream@;
    let mut i: usize = 0;
    assert(tensor@.take(0) =~= Seq::empty());
    assert(stream@ =~= start + parts_bytes(tensor@.take(0), e));
    while i < n
        invariant
            i <= n,
            n == tensor.0@.len(),
            stream@ == start + parts_bytes(tensor@.take(i as int), e),
        decreases n - i,
    {
        encode_matrix(&tensor.0[i], e, stream);
        proof {
            lemma_parts_bytes_push(tensor@.take(i as int), tensor@[i as int], e);
            assert(tensor@.take(i + 1) =~= tensor@.take(i as int).push(tensor@[i as int]));
            assert(stream@ =~= start + parts_bytes(tensor@.take(i + 1), e));
        }
        i += 1;
    }
    assert(tensor@.take(i as int) =~= tensor@);
    assert(stream@ =~= old(stream)@ + tensor_bytes(tensor@, e));
}

/// The bytes of the coordinates of a geometry.
pub open spec fn payload_bytes(payload: Payload, e: Endianess) -> Seq<u8> {
    match payload {
        Payload::Tuple(p) => tuple_bytes(p, e),
        Payload::Points(a) => array_bytes(a, e),
        Payload::Rings(m) => matrix_bytes(m, e),
        Payload::Parts(t) => tensor_bytes(t, e),
    }
}

/// Appends the bytes of the coordinates of a geometry to `stream`.
pub fn encode_coordinates(coordinates: CoordinatesRef<'_>, e: Endianess, stream: &mut Vec<u8>)
    ensures
        final(stream)@ == old(stream)@ + payload_bytes(coordinates@, e),
{
    match coordinates {
        CoordinatesRef::Vector2D(vector) => encode_vector(vector, e, stream),
        CoordinatesRef::VectorArray2D(array) => encode_array(array, e, stream),
        CoordinatesRef::VectorMatrix2D(matrix) => encode_matrix(matrix, e, stream),
        CoordinatesRef::VectorTensor2D(tensor) => encode_tensor(tensor, e, stream),
        CoordinatesRef::Vector3D(vector) => encode_vector(vector, e, stream),
        CoordinatesRef::VectorArray3D(array) => encode_array(array, e, stream),
        CoordinatesRef::VectorMatrix3D(matrix) => encode_matrix(matrix, e, stream),
        CoordinatesRef::VectorTensor3D(tensor) => encode_tensor(tensor, e, stream),
    }
}

/// A parse of further items, seen from before the items `head`: the same
/// remainder, and `head` before what was parsed.
pub open spec fn prepend<T>(head: Seq<T>, parsed: Option<(Seq<T>, Seq<u8>)>) -> Option<
    (Seq<T>, Seq<u8>),
> {
    match parsed {
        None => None,
        Some((items, rest)) => Some((head + items, rest)),
    }
}

/// Reads a coordinate tuple of `N` scalars at `pos`: the tuple and the
/// position after it, or nothing where the bytes end too early.
pub fn decode_vector<const N: usize>(bytes: &[u8], pos: usize, e: Endianess) -> (r: Option<
    (Vector<N, u64>, usize),
>)
    requires
        pos <= bytes@.len(),
    ensures
        match r {
            Some((vector, next)) => {
                &&& pos <= next <= bytes@.len()
                &&& parse_tuple(bytes@.skip(pos as int), N as nat, e) == Some(
                    (vector@, bytes@.skip(next as int)),
                )
            },
            None => parse_tuple(bytes@.skip(pos as int), N as nat, e) is None,
        },
{
    let mut scalars: [u64; N] = [0u64;N];
    let mut at = pos;
    let mut i: usize = 0;
    let ghost whole = parse_tuple(bytes@.skip(pos as int), N as nat, e);
    assert(scalars@.take(0) =~= Seq::empty());
    assert(prepend(Seq::<u64>::empty(), whole) == whole) by {
        if whole is Some {
            assert(Seq::<u64>::empty() + whole->Some_0.0 =~= whole->Some_0.0);
        }
    }
    while i < N
        invariant
            i <= N,
            pos <= at <= bytes@.len(),
            whole == parse_tuple(bytes@.skip(pos as int), N as nat, e),
            whole == prepend(
                scalars@.take(i as int),
                parse_tuple(bytes@.skip(at as int), (N - i) as nat, e),
            ),
        decreases N - i,
    {
        let ghost done = scalars@.take(i as int);
        match take_u64(bytes, at, e) {
            None => {
                return None;
            },
            Some((scalar, next)) => {
                scalars[i] = scalar;
                proof {
                    let further = parse_tuple(bytes@.skip(next as int), (N - i - 1) as nat, e);
                    assert(scalars@.take(i + 1) =~= done.push(scalar));
                    if further is Some {
                        assert(done + (seq![scalar] + further->Some_0.0) =~= done.push(scalar)
                            + further->Some_0.0);
                    }
                }
                at = next;
            },
        }
        i += 1;
    }
    proof {
        assert(scalars@.take(i as int) =~= scalars@);
        assert(scalars@ + Seq::<u64>::empty() =~= scalars@);
    }
    Some((Vector::new(scalars), at))
}

/// Reads a point sequence at `pos`: the sequence and the position after it,
/// or nothing where the bytes end too early.
pub fn decode_array<const N: usize>(bytes: &[u8], pos: usize, e: Endianess) -> (r: Option<
    (VectorArray<N, u64>, usize),
>)
    requires
        pos <= bytes@.len(),
    ensures
        match r {
            Some((array, next)) => {
                &&& pos <= next <= bytes@.len()
                &&& parse_array(bytes@.skip(pos as int), N as nat, e) == Some(
                    (array@, bytes@.skip(next as int)),
                )
            },
            None => parse_array(bytes@.skip(pos as int), N as nat, e) is None,
        },
{
    let (n, start) = match take_u32(bytes, pos, e) {
        None => {
            return None;
        },
        Some(read) => read,
    };
    let mut array: VectorArray<N, u64> = VectorArray::new(Vec::new());
    let mut at = start;
    let mut i: u32 = 0;
    let ghost whole = parse_points(bytes@.skip(start as int), n as nat, N as nat, e);
    assert(array@ =~= Seq::empty());
    assert(prepend(Seq::<Seq<u64>>::empty(), whole) == whole) by {
        if whole is Some {
            assert(Seq::<Seq<u64>>::empty() + whole->Some_0.0 =~= whole->Some_0.0);
        }
    }
    while i < n
        invariant
            i <= n,
            pos <= at <= bytes@.len(),
            whole == parse_array(bytes@.skip(pos as int), N as nat, e),
            whole == prepend(
                array@,
                parse_points(bytes@.skip(at as int), (n - i) as nat, N as nat, e),
            ),
        decreases n - i,
    {
        let ghost done = array@;
        match decode_vector::<N>(bytes, at, e) {
            None => {
                return None;
            },
            Some((vector, next)) => {
                array.0.push(vector);
                proof {
                    let further = parse_points(
                        bytes@.skip(next as int),
                        (n - i - 1) as nat,
                        N as nat,
                        e,
                    );
                    assert(array@ =~= done.push(vector@));
                    if further is Some {
                        assert(done + (seq![vector@] + further->Some_0.0) =~= done.push(vector@)
                            + further->Some_0.0);
                    }
                }
                at = next;
            },
        }
        i += 1;
    }
    proof {
        assert(array@ + Seq::<Seq<u64>>::empty() =~= array@);
    }
    Some((array, at))
}

/// Reads a ring sequence at `pos`: the sequence and the position after it, or
/// nothing where the bytes end too early.
pub fn decode_matrix<const N: usize>(bytes: &[u8], pos: usize, e: Endianess) -> (r: Option<
    (VectorMatrix<N, u64>, usize),
>)
    requires
        pos <= bytes@.len(),
    ensures
        match r {
            Some((matrix, next)) => {
                &&& pos <= next <= bytes@.len()
                &&& parse_matrix(bytes@.skip(pos as int), N as nat, e) == Some(
                    (matrix@, bytes@.skip(next as int)),
                )
            },
            None => parse_matrix(bytes@.skip(pos as int), N as nat, e) is None,
        },
{
    let (n, start) = match take_u32(bytes, pos, e) {
        None => {
            return None;
        },
        Some(read) => read,
    };
    let mut matrix: VectorMatrix<N, u64> = VectorMatrix::new(Vec::new());
    let mut at = start;
    let mut i: u32 = 0;
    let ghost whole = parse_rings(bytes@.skip(start as int), n as nat, N as nat, e);
    assert(matrix@ =~= Seq::empty());
    assert(prepend(Seq::<Seq<Seq<u64>>>::empty(), whole) == whole) by {
        if whole is Some {
            assert(Seq::<Seq<Seq<u64>>>::empty() + whole->Some_0.0 =~= whole->Some_0.0);
        }
    }
    while i < n
        invariant
            i <= n,
            pos <= at <= bytes@.len(),
            whole == parse_matrix(bytes@.skip(pos as int), N as nat, e),
            whole == prepend(
                matrix@,
                parse_rings(bytes@.skip(at as int), (n - i) as nat, N as nat, e),
            ),
        decreases n - i,
    {
        let ghost done = matrix@;
        match decode_array::<N>(bytes, at, e) {
            None => {
                return None;
            },
            Some((ring, next)) => {
                matrix.0.push(ring);
                proof {
                    let further = parse_rings(
                        bytes@.skip(next as int),
                        (n - i - 1) as nat,
                        N as nat,
                        e,
                    );
                    assert(matrix@ =~= done.push(ring@));
                    if further is Some {
                        assert(done + (seq![ring@] + further->Some_0.0) =~= done.push(ring@)
                            + further->Some_0.0);
                    }
                }
                at = next;
            },
        }
        i += 1;
    }
    proof {
        assert(matrix@ + Seq::<Seq<Seq<u64>>>::empty() =~= matrix@);
    }
    Some((matrix, at))
}

/// Reads a collection of ring sequences at `pos`: the sequence and the position after it, or
/// nothing where the bytes end too early.
pub fn decode_tensor<const N: usize>(bytes: &[u8], pos: usize, e: Endianess) -> (r: Option<
    (VectorTensor<N, u64>, usize),
>)
    requires
        pos <= bytes@.len(),
    ensures
        match r {
            Some((tensor, next)) => {
                &&& pos <= next <= bytes@.len()
                &&& parse_tensor(bytes@.skip(pos as int), N as nat, e) == Some(
                    (tensor@, bytes@.skip(next as int)),
                )
            },
            None => parse_tensor(bytes@.skip(pos as int), N as nat, e) is None,
        },
{
    let (n, start) = match take_u32(bytes, pos, e) {
        None => {
            return None;
        },
        Some(read) => read,
    };
    let mut tensor: VectorTensor<N, u64> = VectorTensor::new(Vec::new());
    let mut at = start;
    let mut i: u32 = 0;
    let ghost whole = parse_parts(bytes@.skip(start as int), n as nat, N as nat, e);
    assert(tensor@ =~= Seq::empty());
    assert(prepend(Seq::<Seq<Seq<Seq<u64>>>>::empty(), whole) == whole) by {
        if whole is Some {
            assert(Seq::<Seq<Seq<Seq<u64>>>>::empty() + whole->Some_0.0 =~= whole->Some_0.0);
        }
    }
    while i < n
        invariant
            i <= n,
            pos <= at <= bytes@.len(),
            whole == parse_tensor(bytes@.skip(pos as int), N as nat, e),
            whole == prepend(
                tensor@,
                parse_parts(bytes@.skip(at as int), (n - i) as nat, N as nat, e),
            ),
        decreases n - i,
    {
        let ghost done = tensor@;
        match decode_matrix::<N>(bytes, at, e) {
            None => {
                return None;
            },
            Some((part, next)) => {
                tensor.0.push(part);
                proof {
                    let further = parse_parts(
                        bytes@.skip(next as int),
                        (n - i - 1) as nat,
                        N as nat,
                        e,
                    );
                    assert(tensor@ =~= done.push(part@));
                    if further is Some {
                        assert(done + (seq![part@] + further->Some_0.0) =~= done.push(part@)
                            + further->Some_0.0);
                    }
                }
                at = next;
            },
        }
        i += 1;
    }
    proof {
        assert(tensor@ + Seq::<Seq<Seq<Seq<u64>>>>::empty() =~= tensor@);
    }
    Some((tensor, at))
}

/// What reading the coordinates of a geometry of `kind` from the front of
/// `b` gives: the coordinates and what follows them. The rings of a polygon
/// are closed as they are read. A kind that has no encoding is refused, and
/// bytes that end too early are an error.
pub open spec fn parse_payload(b: Seq<u8>, kind: GeometryKind, e: Endianess) -> Result<
    (Payload, Seq<u8>),
    Error,
> {
    let dimension = kind.dimension();
    match kind.shape() {
        Shape::GeometryCollection => Err(Error::UnsupportedGeometryKind { kind }),
        Shape::Point => match parse_tuple(b, dimension, e) {
            None => Err(Error::UnexpectedEof),
            Some((p, rest)) => Ok((Payload::Tuple(p), rest)),
        },
        Shape::LineString | Shape::MultiPoint => match parse_array(b, dimension, e) {
            None => Err(Error::UnexpectedEof),
            Some((a, rest)) => Ok((Payload::Points(a), rest)),
        },
        Shape::Polygon => match parse_matrix(b, dimension, e) {
            None => Err(Error::UnexpectedEof),
            Some((m, rest)) => Ok((Payload::Rings(all_closed(m)), rest)),
        },
        Shape::MultiLineString => match parse_matrix(b, dimension, e) {
            None => Err(Error::UnexpectedEof),
            Some((m, rest)) => Ok((Payload::Rings(m), rest)),
        },
        Shape::MultiPolygon => match parse_tensor(b, dimension, e) {
            None => Err(Error::UnexpectedEof),
            Some((t, rest)) => Ok((Payload::Parts(t), rest)),
        },
    }
}

/// Reads the coordinates of a geometry of `kind` at `pos`: the geometry, in
/// the default reference system, and the position after it.
pub fn decode_coordinates(kind: GeometryKind, bytes: &[u8], pos: usize, e: Endianess) -> (r:
    Result<(Geometry, usize), Error>)
    requires
        pos <= bytes@.len(),
    ensures
        match r {
            Ok((geometry, next)) => {
                &&& pos <= next <= bytes@.len()
                &&& geometry@.kind == kind
                &&& geometry@.srid == Some(DEFAULT_SRID)
                &&& parse_payload(bytes@.skip(pos as int), kind, e) == Ok::<_, Error>(
                    (geometry@.payload, bytes@.skip(next as int)),
                )
            },
            Err(error) => parse_payload(bytes@.skip(pos as int), kind, e) == Err::<
                (Payload, Seq<u8>),
                _,
            >(error),
        },
{
    match kind {
        GeometryKind::Point => match decode_vector::<2>(bytes, pos, e) {
            None => Err(Error::UnexpectedEof),
            Some((coordinates, next)) => Ok((Geometry::Point(Point::new(coordinates)), next)),
        },
        GeometryKind::LineString => match decode_array::<2>(bytes, pos, e) {
            None => Err(Error::UnexpectedEof),
            Some((coordinates, next)) => {
                Ok((Geometry::LineString(LineString::new(coordinates)), next))
            },
        },
        GeometryKind::Polygon => match decode_matrix::<2>(bytes, pos, e) {
            None => Err(Error::UnexpectedEof),
            Some((coordinates, next)) => Ok((Geometry::Polygon(Polygon::new(coordinates)), next)),
        },
        GeometryKind::MultiPoint => match decode_array::<2>(bytes, pos, e) {
            None => Err(Error::UnexpectedEof),
            Some((coordinates, next)) => {
                Ok((Geometry::MultiPoint(MultiPoint::new(coordinates)), next))
            },
        },
        GeometryKind::MultiLineString => match decode_matrix::<2>(bytes, pos, e) {
            None => Err(Error::UnexpectedEof),
            Some((coordinates, next)) => {
                Ok((Geometry::MultiLineString(MultiLineString::new(coordinates)), next))
            },
        },
        GeometryKind::MultiPolygon => match decode_tensor::<2>(bytes, pos, e) {
            None => Err(Error::UnexpectedEof),
            Some((coordinates, next)) => {
                Ok((Geometry::MultiPolygon(MultiPolygon::new(coordinates)), next))
            },
        },
        GeometryKind::PointZ => match decode_vector::<3>(bytes, pos, e) {
            None => Err(Error::UnexpectedEof),
            Some((coordinates, next)) => Ok((Geometry::PointZ(PointZ::new(coordinates)), next)),
        },
        GeometryKind::LineStringZ => match decode_array::<3>(bytes, pos, e) {
            None => Err(Error::UnexpectedEof),
            Some((coordinates, next)) => {
                Ok((Geometry::LineStringZ(LineStringZ::new(coordinates)), next))
            },
        },
        GeometryKind::PolygonZ => match decode_matrix::<3>(bytes, pos, e) {
            None => Err(Error::UnexpectedEof),
            Some((coordinates, next)) => Ok((Geometry::PolygonZ(PolygonZ::new(coordinates)), next)),
        },
        GeometryKind::MultiPointZ => match decode_array::<3>(bytes, pos, e) {
            None => Err(Error::UnexpectedEof),
            Some((coordinates, next)) => {
                Ok((Geometry::MultiPointZ(MultiPointZ::new(coordinates)), next))
            },
        },
        GeometryKind::MultiLineStringZ => match decode_matrix::<3>(bytes, pos, e) {
            None => Err(Error::UnexpectedEof),
            Some((coordinates, next)) => {
                Ok((Geometry::MultiLineStringZ(MultiLineStringZ::new(coordinates)), next))
            },
        },
        GeometryKind::MultiPolygonZ => match decode_tensor::<3>(bytes, pos, e) {
            None => Err(Error::UnexpectedEof),
            Some((coordinates, next)) => {
                Ok((Geometry::MultiPolygonZ(MultiPolygonZ::new(coordinates)), next))
            },
        },
        GeometryKind::GeometryCollection => Err(Error::UnsupportedGeometryKind { kind }),
        GeometryKind::GeometryCollectionZ => Err(Error::UnsupportedGeometryKind { kind }),
    }
}

/// Reading the written coordinates of a geometry back, whatever follows
/// them, yields the coordinates.
pub proof fn lemma_payload_round_trip(g: GeometryView, e: Endianess, rest: Seq<u8>)
    requires
        g.well_formed(),
        g.canonical(),
    ensures
        parse_payload(payload_bytes(g.payload, e) + rest, g.kind, e) == Ok::<_, Error>(
            (g.payload, rest),
        ),
{
    let dimension = g.kind.dimension();
    match g.payload {
        Payload::Tuple(p) => {
            lemma_tuple_round_trip(p, e, rest);
        },
        Payload::Points(a) => {
            lemma_array_round_trip(a, dimension, e, rest);
        },
        Payload::Rings(m) => {
            lemma_matrix_round_trip(m, dimension, e, rest);
            if g.kind.shape() == Shape::Polygon {
                assert(all_closed(m) =~= m);
            }
        },
        Payload::Parts(t) => {
            lemma_tensor_round_trip(t, dimension, e, rest);
        },
    }
}

/// The bytes of a tuple are as many in either byte order.
pub proof fn lemma_tuple_length(p: Seq<u64>, e1: Endianess, e2: Endianess)
    ensures
        tuple_bytes(p, e1).len() == tuple_bytes(p, e2).len(),
    decreases p.len(),
{
    if p.len() > 0 {
        lemma_u64_round_trip(p.first(), e1, Seq::empty());
        lemma_u64_round_trip(p.first(), e2, Seq::empty());
        lemma_tuple_length(p.drop_first(), e1, e2);
    }
}

/// The bytes of tuples are as many in either byte order.
pub proof fn lemma_points_length(a: Seq<Seq<u64>>, e1: Endianess, e2: Endianess)
    ensures
        points_bytes(a, e1).len() == points_bytes(a, e2).len(),
        array_bytes(a, e1).len() == array_bytes(a, e2).len(),
    decreases a.len(),
{
    lemma_u32_round_trip(count(a.len()), e1, Seq::empty());
    lemma_u32_round_trip(count(a.len()), e2, Seq::empty());
    if a.len() > 0 {
        lemma_tuple_length(a.first(), e1, e2);
        lemma_points_length(a.drop_first(), e1, e2);
    }
}

/// The bytes of point sequences are as many in either byte order.
pub proof fn lemma_rings_length(m: Seq<Seq<Seq<u64>>>, e1: Endianess, e2: Endianess)
    ensures
        rings_bytes(m, e1).len() == rings_bytes(m, e2).len(),
        matrix_bytes(m, e1).len() == matrix_bytes(m, e2).len(),
    decreases m.len(),
{
    lemma_u32_round_trip(count(m.len()), e1, Seq::empty());
    lemma_u32_round_trip(count(m.len()), e2, Seq::empty());
    if m.len() > 0 {
        lemma_points_length(m.first(), e1, e2);
        lemma_rings_length(m.drop_first(), e1, e2);
    }
}

/// The bytes of ring sequences are as many in either byte order.
pub proof fn lemma_parts_length(t: Seq<Seq<Seq<Seq<u64>>>>, e1: Endianess, e2: Endianess)
    ensures
        parts_bytes(t, e1).len() == parts_bytes(t, e2).len(),
        tensor_bytes(t, e1).len() == tensor_bytes(t, e2).len(),
    decreases t.len(),
{
    lemma_u32_round_trip(count(t.len()), e1, Seq::empty());
    lemma_u32_round_trip(count(t.len()), e2, Seq::empty());
    if t.len() > 0 {
        lemma_rings_length(t.first(), e1, e2);
        lemma_parts_length(t.drop_first(), e1, e2);
    }
}

/// The bytes of the coordinates of a geometry are as many in either byte
/// order.
pub proof fn lemma_payload_length(payload: Payload, e1: Endianess, e2: Endianess)
    ensures
        payload_bytes(payload, e1).len() == payload_bytes(payload, e2).len(),
{
    match payload {
        Payload::Tuple(p) => lemma_tuple_length(p, e1, e2),
        Payload::Points(a) => lemma_points_length(a, e1, e2),
        Payload::Rings(m) => lemma_rings_length(m, e1, e2),
        Payload::Parts(t) => lemma_parts_length(t, e1, e2),
    }
}

/// Reading coordinates fails only on bytes that end too early or on a kind
/// that has no encoding.
pub proof fn lemma_payload_errors(b: Seq<u8>, kind: GeometryKind, e: Endianess)
    ensures
        parse_payload(b, kind, e) matches Err(error) ==> error == Error::UnexpectedEof || error
            == (Error::UnsupportedGeometryKind { kind }),
{
}

} // verus!
