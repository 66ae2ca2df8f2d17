//! The coordinate hierarchy: a coordinate tuple of fixed arity, and nested
//! sequences of such tuples.
use crate::error::Error;
use crate::scalar::{equal, float_eq, float_gt, greater, is_nan, is_not_a_number, rank};
use std::ops::{Deref, DerefMut};
use vstd::prelude::*;
use vstd::std_specs::convert::FromSpecImpl;

verus! {

/// A coordinate tuple of `N` scalars. The geometries hold scalars of type
/// `u64`, each the bit pattern of a 64-bit float.
#[derive(Debug, PartialEq, Eq, Clone, Copy)]
pub struct Vector<const N: usize, U>(pub [U; N]);

impl<const N: usize, U> View for Vector<N, U> {
    type V = Seq<U>;

    open spec fn view(&self) -> Seq<U> {
        self.0@
    }
}

impl<const N: usize, U> Vector<N, U> {
    pub fn new(coordinates: [U; N]) -> (v: Self)
        ensures
            v.0 == coordinates,
    {
        Self(coordinates)
    }
}

impl<const N: usize, U: Copy> Vector<N, U> {
    /// The first scalar.
    pub fn x(&self) -> (r: U)
        requires
            N >= 1,
        ensures
            r == self@[0],
    {
        self.0[0]
    }

    /// The second scalar.
    pub fn y(&self) -> (r: U)
        requires
            N >= 2,
        ensures
            r == self@[1],
    {
        self.0[1]
    }

    /// The third scalar.
    pub fn z(&self) -> (r: U)
        requires
            N >= 3,
        ensures
            r == self@[2],
    {
        self.0[2]
    }
}

impl<const N: usize> Vector<N, u64> {
    /// Whether the two tuples are equal as tuples of floats.
    pub fn same_point(&self, other: &Self) -> (r: bool)
        ensures
            r == same_floats(self@, other@),
    {
        let mut i: usize = 0;
        while i < N
            invariant
                i <= N,
                self@.len() == N,
                other@.len() == N,
                forall|j: int| 0 <= j < i ==> float_eq(#[trigger] self@[j], other@[j]),
            decreases N - i,
        {
            if !equal(self.0[i], other.0[i]) {
                return false;
            }
            i += 1;
        }
        true
    }
}

/// Whether two tuples have the same arity and are equal float by float. No
/// tuple that holds a NaN equals any tuple.
pub open spec fn same_floats(a: Seq<u64>, b: Seq<u64>) -> bool {
    &&& a.len() == b.len()
    &&& forall|j: int| 0 <= j < a.len() ==> float_eq(#[trigger] a[j], b[j])
}

/// The scalars that the tuples of `points` hold at place `axis`.
pub open spec fn axis_values(points: Seq<Seq<u64>>, axis: int) -> Seq<u64> {
    points.map_values(|p: Seq<u64>| p[axis])
}

/// Whether any of the patterns is no number.
pub open spec fn has_nan(values: Seq<u64>) -> bool {
    exists|i: int| 0 <= i < values.len() && is_nan(#[trigger] values[i])
}

/// The extreme of a sequence of floats, taken from left to right: the
/// greatest where `max` holds, the least where it does not. Of several equal
/// least floats it is the first, of several equal greatest the last.
pub open spec fn pick(values: Seq<u64>, max: bool) -> u64
    decreases values.len(),
{
    if values.len() <= 1 {
        values[0]
    } else {
        let best = pick(values.drop_last(), max);
        if float_gt(best, values.last()) == max {
            best
        } else {
            values.last()
        }
    }
}

/// The extreme of a sequence of floats, where it has one: none of an empty
/// sequence, none of a sequence that holds a NaN.
pub open spec fn extreme(values: Seq<u64>, max: bool) -> Result<u64, Error> {
    if values.len() == 0 {
        Err(Error::EmptyCoordinates)
    } else if has_nan(values) {
        Err(Error::NotANumber)
    } else {
        Ok(pick(values, max))
    }
}

/// The results in order, up to the first that is an error, which then stands
/// for them all.
pub open spec fn all_ok(results: Seq<Result<u64, Error>>) -> Result<Seq<u64>, Error>
    decreases results.len(),
{
    if results.len() == 0 {
        Ok(Seq::empty())
    } else {
        match all_ok(results.drop_last()) {
            Err(e) => Err(e),
            Ok(values) => match results.last() {
                Err(e) => Err(e),
                Ok(value) => Ok(values.push(value)),
            },
        }
    }
}

/// The extreme of the extremes: the first error among `results`, or else the
/// extreme of what they hold.
pub open spec fn extreme_of(results: Seq<Result<u64, Error>>, max: bool) -> Result<u64, Error> {
    match all_ok(results) {
        Err(e) => Err(e),
        Ok(values) => extreme(values, max),
    }
}

/// The extreme at place `axis` over a point sequence.
pub open spec fn array_extreme(points: Seq<Seq<u64>>, axis: int, max: bool) -> Result<u64, Error> {
    extreme(axis_values(points, axis), max)
}

/// The extreme at place `axis` over a ring sequence: the extreme of the
/// extremes of its point sequences.
pub open spec fn matrix_extreme(rings: Seq<Seq<Seq<u64>>>, axis: int, max: bool) -> Result<
    u64,
    Error,
> {
    extreme_of(rings.map_values(|r: Seq<Seq<u64>>| array_extreme(r, axis, max)), max)
}

/// The extreme at place `axis` over a collection of ring sequences: the
/// extreme of the extremes of its ring sequences.
pub open spec fn tensor_extreme(parts: Seq<Seq<Seq<Seq<u64>>>>, axis: int, max: bool) -> Result<
    u64,
    Error,
> {
    extreme_of(parts.map_values(|m: Seq<Seq<Seq<u64>>>| matrix_extreme(m, axis, max)), max)
}

/// The extreme of a sequence of numbers is one of them, and none of them
/// lies beyond it.
pub proof fn lemma_pick_bounds(values: Seq<u64>, max: bool)
    requires
        values.len() > 0,
        !has_nan(values),
    ensures
        exists|i: int| 0 <= i < values.len() && #[trigger] values[i] == pick(values, max),
        !is_nan(pick(values, max)),
        forall|i: int|
            0 <= i < values.len() ==> if max {
                !float_gt(#[trigger] values[i], pick(values, max))
            } else {
                !float_gt(pick(values, max), #[trigger] values[i])
            },
    decreases values.len(),
{
    let r = pick(values, max);
    if values.len() <= 1 {
        assert(values[0] == r);
    } else {
        let front = values.drop_last();
        assert forall|i: int| 0 <= i < front.len() implies !is_nan(#[trigger] front[i]) by {
            assert(front[i] == values[i]);
        }
        lemma_pick_bounds(front, max);
        let best = pick(front, max);
        let k = choose|i: int| 0 <= i < front.len() && #[trigger] front[i] == best;
        assert(values[k] == best);
        let last = values.len() - 1;
        assert(values[last] == values.last());
        assert(!is_nan(values[last]));
        assert forall|i: int| 0 <= i < values.len() implies if max {
            !float_gt(#[trigger] values[i], r)
        } else {
            !float_gt(r, #[trigger] values[i])
        } by {
            if i < front.len() {
                assert(front[i] == values[i]);
            }
        }
    }
}

/// A sequence of coordinate tuples.
#[derive(Debug, Clone, PartialEq, Eq)]
pub struct VectorArray<const N: usize, U>(pub Vec<Vector<N, U>>);

impl<const N: usize, U> View for VectorArray<N, U> {
    type V = Seq<Seq<U>>;

    open spec fn view(&self) -> Seq<Seq<U>> {
        self.0@.map_values(|v: Vector<N, U>| v@)
    }
}

/// Whether a ring is closed: it is empty, or its first and last tuples are
/// equal as tuples of floats.
pub open spec fn is_closed(ring: Seq<Seq<u64>>) -> bool {
    ring.len() == 0 || same_floats(ring.first(), ring.last())
}

/// The ring, closed: itself where it is closed, and else with its first
/// tuple repeated at the end.
pub open spec fn closed(ring: Seq<Seq<u64>>) -> Seq<Seq<u64>> {
    if is_closed(ring) {
        ring
    } else {
        ring.push(ring.first())
    }
}

/// Closing a ring closes it, and closing it once more changes nothing, as
/// long as the first tuple of a ring that is not empty holds no NaN: a tuple
/// with a NaN equals nothing, so that such a ring is never closed.
pub proof fn lemma_close_ring_idempotent(ring: Seq<Seq<u64>>)
    requires
        ring.len() > 0 ==> !has_nan(ring.first()),
    ensures
        is_closed(closed(ring)),
        closed(closed(ring)) == closed(ring),
{
    if !is_closed(ring) {
        let first = ring.first();
        let once = ring.push(first);
        assert(once.first() == first && once.last() == first);
        assert forall|j: int| 0 <= j < first.len() implies float_eq(
            #[trigger] first[j],
            first[j],
        ) by {
            assert(!is_nan(first[j]));
        }
    }
}

impl<const N: usize, U> VectorArray<N, U> {
    pub fn new(a: Vec<Vector<N, U>>) -> (r: Self)
        ensures
            r.0 == a,
    {
        Self(a)
    }
}

impl<const N: usize> VectorArray<N, u64> {
    /// Closes the ring: where the first and the last tuple differ as floats,
    /// the first is repeated at the end.
    pub fn close_ring(&mut self)
        ensures
            final(self)@ == closed(old(self)@),
    {
        let n = self.0.len();
        if n == 0 {
            return ;
        }
        let first = self.0[0];
        let is_ring = first.same_point(&self.0[n - 1]);
        if !is_ring {
            self.0.push(first);
            assert(self@ =~= old(self)@.push(first@));
        }
    }

    /// The extreme at place `axis`: the greatest where `max` holds, else the
    /// least.
    pub fn extreme(&self, axis: usize, max: bool) -> (r: Result<u64, Error>)
        requires
            axis < N,
        ensures
            r == array_extreme(self@, axis as int, max),
    {
        let n = self.0.len();
        if n == 0 {
            return Err(Error::EmptyCoordinates);
        }
        let ghost values = axis_values(self@, axis as int);
        let mut best = self.0[0].0[axis];
        if is_not_a_number(best) {
            assert(is_nan(values[0]));
            return Err(Error::NotANumber);
        }
        let mut i: usize = 1;
        while i < n
            invariant
                1 <= i <= n,
                n == self.0@.len(),
                axis < N,
                values == axis_values(self@, axis as int),
                !has_nan(values.take(i as int)),
                best == pick(values.take(i as int), max),
            decreases n - i,
        {
            let value = self.0[i].0[axis];
            if is_not_a_number(value) {
                assert(is_nan(values[i as int]));
                return Err(Error::NotANumber);
            }
            proof {
                let before = values.take(i as int);
                let now = values.take(i + 1);
                assert(now.drop_last() =~= before);
                assert(now.last() == value);
                assert forall|j: int| 0 <= j < now.len() implies !is_nan(#[trigger] now[j]) by {
                    if j < i {
                        assert(before[j] == now[j]);
                    }
                }
            }
            if greater(best, value) != max {
                best = value;
            }
            i += 1;
        }
        assert(values.take(i as int) =~= values);
        Ok(best)
    }

    pub fn min_x(&self) -> (r: Result<u64, Error>)
        requires
            N >= 1,
        ensures
            r == array_extreme(self@, 0, false),
    {
        self.extreme(0, false)
    }

    pub fn max_x(&self) -> (r: Result<u64, Error>)
        requires
            N >= 1,
        ensures
            r == array_extreme(self@, 0, true),
    {
        self.extreme(0, true)
    }

    pub fn min_y(&self) -> (r: Result<u64, Error>)
        requires
            N >= 2,
        ensures
            r == array_extreme(self@, 1, false),
    {
        self.extreme(1, false)
    }

    pub fn max_y(&self) -> (r: Result<u64, Error>)
        requires
            N >= 2,
        ensures
            r == array_extreme(self@, 1, true),
    {
        self.extreme(1, true)
    }
}

/// An error among the first results is the error of them all.
pub proof fn lemma_all_ok_error(results: Seq<Result<u64, Error>>, n: int)
    requires
        0 <= n <= results.len(),
        all_ok(results.take(n)) is Err,
    ensures
        all_ok(results) == all_ok(results.take(n)),
    decreases results.len() - n,
{
    if n < results.len() {
        assert(results.take(n + 1).drop_last() =~= results.take(n));
        lemma_all_ok_error(results, n + 1);
    } else {
        assert(results.take(n) =~= results);
    }
}

/// Where every result holds a value, together they hold the values in order.
pub proof fn lemma_all_ok_values(results: Seq<Result<u64, Error>>)
    requires
        all_ok(results) is Ok,
    ensures
        all_ok(results)->Ok_0.len() == results.len(),
        forall|i: int|
            0 <= i < results.len() ==> #[trigger] results[i] == Ok::<u64, Error>(
                all_ok(results)->Ok_0[i],
            ),
    decreases results.len(),
{
    if results.len() > 0 {
        lemma_all_ok_values(results.drop_last());
        assert forall|i: int| 0 <= i < results.len() implies #[trigger] results[i] == Ok::<
            u64,
            Error,
        >(all_ok(results)->Ok_0[i]) by {
            if i < results.len() - 1 {
                assert(results.drop_last()[i] == results[i]);
            }
        }
    }
}

/// A sequence of point sequences.
#[derive(Debug, Clone, PartialEq, Eq)]
pub struct VectorMatrix<const N: usize, U>(pub Vec<VectorArray<N, U>>);

impl<const N: usize, U> View for VectorMatrix<N, U> {
    type V = Seq<Seq<Seq<U>>>;

    open spec fn view(&self) -> Seq<Seq<Seq<U>>> {
        self.0@.map_values(|a: VectorArray<N, U>| a@)
    }
}

/// The rings, each closed.
pub open spec fn all_closed(rings: Seq<Seq<Seq<u64>>>) -> Seq<Seq<Seq<u64>>> {
    rings.map_values(|r: Seq<Seq<u64>>| closed(r))
}

impl<const N: usize, U> VectorMatrix<N, U> {
    pub fn new(coordinates: Vec<VectorArray<N, U>>) -> (r: Self)
        ensures
            r.0 == coordinates,
    {
        Self(coordinates)
    }
}

impl<const N: usize> VectorMatrix<N, u64> {
    /// Closes every ring.
    pub fn close_rings(&mut self)
        ensures
            final(self)@ == all_closed(old(self)@),
    {
        let n = self.0.len();
        let mut i: usize = 0;
        while i < n
            invariant
                i <= n,
                n == old(self)@.len(),
                self@.len() == n,
                forall|j: int| 0 <= j < i ==> #[trigger] self@[j] == closed(old(self)@[j]),
                forall|j: int| i <= j < n ==> #[trigger] self@[j] == old(self)@[j],
            decreases n - i,
        {
            let ghost before = self@;
            let mut ring = VectorArray::new(Vec::new());
            core::mem::swap(&mut ring, &mut self.0[i]);
            ring.close_ring();
            self.0[i] = ring;
            assert(self@ =~= before.update(i as int, closed(before[i as int])));
            i += 1;
        }
        assert(self@ =~= all_closed(old(self)@));
    }

    /// The extreme at place `axis`: the greatest where `max` holds, else the
    /// least.
    pub fn extreme(&self, axis: usize, max: bool) -> (r: Result<u64, Error>)
        requires
            axis < N,
        ensures
            r == matrix_extreme(self@, axis as int, max),
    {
        let n = self.0.len();
        let ghost results = self@.map_values(|r: Seq<Seq<u64>>| array_extreme(r, axis as int, max));
        let mut best: u64 = 0;
        let ghost mut values: Seq<u64> = Seq::empty();
        let mut i: usize = 0;
        assert(results.take(0) =~= Seq::empty());
        while i < n
            invariant
                i <= n,
                n == self.0@.len(),
                axis < N,
                results == self@.map_values(|r: Seq<Seq<u64>>| array_extreme(r, axis as int, max)),
                all_ok(results.take(i as int)) == Ok::<Seq<u64>, Error>(values),
                values.len() == i,
                !has_nan(values),
                i > 0 ==> best == pick(values, max),
            decreases n - i,
        {
            proof {
                assert(results.take(i + 1).drop_last() =~= results.take(i as int));
                assert(results.take(i + 1).last() == results[i as int]);
            }
            match self.0[i].extreme(axis, max) {
                Err(e) => {
                    proof {
                        lemma_all_ok_error(results, i + 1);
                    }
                    return Err(e);
                },
                Ok(value) => {
                    proof {
                        lemma_pick_bounds(axis_values(self@[i as int], axis as int), max);
                        let now = values.push(value);
                        assert(now.drop_last() =~= values);
                        assert forall|j: int| 0 <= j < now.len() implies !is_nan(
                            #[trigger] now[j],
                        ) by {
                            if j < i {
                                assert(values[j] == now[j]);
                            }
                        }
                        values = now;
                    }
                    if i == 0 || greater(best, value) != max {
                        best = value;
                    }
                },
            }
            i += 1;
        }
        assert(results.take(i as int) =~= results);
        if n == 0 {
            Err(Error::EmptyCoordinates)
        } else {
            Ok(best)
        }
    }

    pub fn min_x(&self) -> (r: Result<u64, Error>)
        requires
            N >= 1,
        ensures
            r == matrix_extreme(self@, 0, false),
    {
        self.extreme(0, false)
    }

    pub fn max_x(&self) -> (r: Result<u64, Error>)
        requires
            N >= 1,
        ensures
            r == matrix_extreme(self@, 0, true),
    {
        self.extreme(0, true)
    }

    pub fn min_y(&self) -> (r: Result<u64, Error>)
        requires
            N >= 2,
        ensures
            r == matrix_extreme(self@, 1, false),
    {
        self.extreme(1, false)
    }

    pub fn max_y(&self) -> (r: Result<u64, Error>)
        requires
            N >= 2,
        ensures
            r == matrix_extreme(self@, 1, true),
    {
        self.extreme(1, true)
    }
}

/// A sequence of ring sequences.
#[derive(Debug, Clone, PartialEq, Eq)]
pub struct VectorTensor<const N: usize, U>(pub Vec<VectorMatrix<N, U>>);

impl<const N: usize, U> View for VectorTensor<N, U> {
    type V = Seq<Seq<Seq<Seq<U>>>>;

    open spec fn view(&self) -> Seq<Seq<Seq<Seq<U>>>> {
        self.0@.map_values(|m: VectorMatrix<N, U>| m@)
    }
}

impl<const N: usize, U> VectorTensor<N, U> {
    pub fn new(coordinates: Vec<VectorMatrix<N, U>>) -> (r: Self)
        ensures
            r.0 == coordinates,
    {
        Self(coordinates)
    }
}

impl<const N: usize> VectorTensor<N, u64> {
    /// The extreme at place `axis`: the greatest where `max` holds, else the
    /// least.
    pub fn extreme(&self, axis: usize, max: bool) -> (r: Result<u64, Error>)
        requires
            axis < N,
        ensures
            r == tensor_extreme(self@, axis as int, max),
    {
        let n = self.0.len();
        let ghost results = self@.map_values(
            |m: Seq<Seq<Seq<u64>>>| matrix_extreme(m, axis as int, max),
        );
        let mut best: u64 = 0;
        let ghost mut values: Seq<u64> = Seq::empty();
        let mut i: usize = 0;
        assert(results.take(0) =~= Seq::empty());
        while i < n
            invariant
                i <= n,
                n == self.0@.len(),
                axis < N,
                results == self@.map_values(
                    |m: Seq<Seq<Seq<u64>>>| matrix_extreme(m, axis as int, max),
                ),
                all_ok(results.take(i as int)) == Ok::<Seq<u64>, Error>(values),
                values.len() == i,
                !has_nan(values),
                i > 0 ==> best == pick(values, max),
            decreases n - i,
        {
            proof {
                assert(results.take(i + 1).drop_last() =~= results.take(i as int));
                assert(results.take(i + 1).last() == results[i as int]);
            }
            match self.0[i].extreme(axis, max) {
                Err(e) => {
                    proof {
                        lemma_all_ok_error(results, i + 1);
                    }
                    return Err(e);
                },
                Ok(value) => {
                    proof {
                        lemma_extreme_of_is_number(
                            self@[i as int].map_values(
                                |r: Seq<Seq<u64>>| array_extreme(r, axis as int, max),
                            ),
                            max,
                        );
                        let now = values.push(value);
                        assert(now.drop_last() =~= values);
                        assert forall|j: int| 0 <= j < now.len() implies !is_nan(
                            #[trigger] now[j],
                        ) by {
                            if j < i {
                                assert(values[j] == now[j]);
                            }
                        }
                        values = now;
                    }
                    if i == 0 || greater(best, value) != max {
                        best = value;
                    }
                },
            }
            i += 1;
        }
        assert(results.take(i as int) =~= results);
        if n == 0 {
            Err(Error::EmptyCoordinates)
        } else {
            Ok(best)
        }
    }

    pub fn min_x(&self) -> (r: Result<u64, Error>)
        requires
            N >= 1,
        ensures
            r == tensor_extreme(self@, 0, false),
    {
        self.extreme(0, false)
    }

    pub fn max_x(&self) -> (r: Result<u64, Error>)
        requires
            N >= 1,
        ensures
            r == tensor_extreme(self@, 0, true),
    {
        self.extreme(0, true)
    }

    pub fn min_y(&self) -> (r: Result<u64, Error>)
        requires
            N >= 2,
        ensures
            r == tensor_extreme(self@, 1, false),
    {
        self.extreme(1, false)
    }

    pub fn max_y(&self) -> (r: Result<u64, Error>)
        requires
            N >= 2,
        ensures
            r == tensor_extreme(self@, 1, true),
    {
        self.extreme(1, true)
    }
}

/// An extreme that exists is a number.
pub proof fn lemma_extreme_of_is_number(results: Seq<Result<u64, Error>>, max: bool)
    requires
        extreme_of(results, max) is Ok,
    ensures
        !is_nan(extreme_of(results, max)->Ok_0),
{
    lemma_pick_bounds(all_ok(results)->Ok_0, max);
}

impl<const N: usize, U> From<[U; N]> for Vector<N, U> {
    fn from(value: [U; N]) -> (r: Self) {
        Self(value)
    }
}

impl<const N: usize, U> FromSpecImpl<[U; N]> for Vector<N, U> {
    open spec fn obeys_from_spec() -> bool {
        true
    }

    open spec fn from_spec(value: [U; N]) -> Self {
        Self(value)
    }
}

impl<const R: usize, const N: usize, U: Copy> From<[[U; N]; R]> for VectorArray<N, U> {
    /// The sequence of the tuples, in their order.
    fn from(value: [[U; N]; R]) -> (r: Self)
        ensures
            r@ == value@.map_values(|p: [U; N]| p@),
    {
        let mut points: Vec<Vector<N, U>> = Vec::new();
        let mut i: usize = 0;
        while i < R
            invariant
                i <= R,
                value@.len() == R,
                points@.len() == i,
                forall|j: int| 0 <= j < i ==> (#[trigger] points@[j])@ == value@[j]@,
            decreases R - i,
        {
            points.push(Vector(value[i]));
            i += 1;
        }
        let r = Self(points);
        assert(r@ =~= value@.map_values(|p: [U; N]| p@));
        r
    }
}

impl<const R: usize, const N: usize, U: Copy> FromSpecImpl<[[U; N]; R]> for VectorArray<N, U> {
    /// The result is stated over the view, by the method itself.
    open spec fn obeys_from_spec() -> bool {
        false
    }

    open spec fn from_spec(value: [[U; N]; R]) -> Self {
        arbitrary()
    }
}

impl<const N: usize, U, T1> From<T1> for VectorMatrix<N, U>
where
    VectorArray<N, U>: From<T1>,
{
    /// The ring sequence of one point sequence.
    fn from(value: T1) -> (r: Self)
        ensures
            r.0@.len() == 1,
            call_ensures(<VectorArray<N, U> as From<T1>>::from, (value,), r.0@[0]),
    {
        let mut rings: Vec<VectorArray<N, U>> = Vec::new();
        rings.push(VectorArray::from(value));
        Self(rings)
    }
}

impl<const N: usize, U, T1> FromSpecImpl<T1> for VectorMatrix<N, U>
where
    VectorArray<N, U>: From<T1>,
{
    /// The result is stated by the method itself.
    open spec fn obeys_from_spec() -> bool {
        false
    }

    open spec fn from_spec(value: T1) -> Self {
        arbitrary()
    }
}

impl<const N: usize, U, T1, T2> From<(T1, T2)> for VectorMatrix<N, U>
where
    VectorArray<N, U>: From<T1>,
    VectorArray<N, U>: From<T2>,
{
    /// The ring sequence of the 2 point sequences, in their order.
    fn from(value: (T1, T2)) -> (r: Self)
        ensures
            r.0@.len() == 2,
            call_ensures(<VectorArray<N, U> as From<T1>>::from, (value.0,), r.0@[0]),
            call_ensures(<VectorArray<N, U> as From<T2>>::from, (value.1,), r.0@[1]),
    {
        let mut rings: Vec<VectorArray<N, U>> = Vec::new();
        rings.push(VectorArray::from(value.0));
        rings.push(VectorArray::from(value.1));
        Self(rings)
    }
}

impl<const N: usize, U, T1, T2> FromSpecImpl<(T1, T2)> for VectorMatrix<N, U>
where
    VectorArray<N, U>: From<T1>,
    VectorArray<N, U>: From<T2>,
{
    /// The result is stated by the method itself.
    open spec fn obeys_from_spec() -> bool {
        false
    }

    open spec fn from_spec(value: (T1, T2)) -> Self {
        arbitrary()
    }
}

impl<const N: usize, U, T1, T2, T3> From<(T1, T2, T3)> for VectorMatrix<N, U>
where
    VectorArray<N, U>: From<T1>,
    VectorArray<N, U>: From<T2>,
    VectorArray<N, U>: From<T3>,
{
    /// The ring sequence of the 3 point sequences, in their order.
    fn from(value: (T1, T2, T3)) -> (r: Self)
        ensures
            r.0@.len() == 3,
            call_ensures(<VectorArray<N, U> as From<T1>>::from, (value.0,), r.0@[0]),
            call_ensures(<VectorArray<N, U> as From<T2>>::from, (value.1,), r.0@[1]),
            call_ensures(<VectorArray<N, U> as From<T3>>::from, (value.2,), r.0@[2]),
    {
        let mut rings: Vec<VectorArray<N, U>> = Vec::new();
        rings.push(VectorArray::from(value.0));
        rings.push(VectorArray::from(value.1));
        rings.push(VectorArray::from(value.2));
        Self(rings)
    }
}

impl<const N: usize, U, T1, T2, T3> FromSpecImpl<(T1, T2, T3)> for VectorMatrix<N, U>
where
    VectorArray<N, U>: From<T1>,
    VectorArray<N, U>: From<T2>,
    VectorArray<N, U>: From<T3>,
{
    /// The result is stated by the method itself.
    open spec fn obeys_from_spec() -> bool {
        false
    }

    open spec fn from_spec(value: (T1, T2, T3)) -> Self {
        arbitrary()
    }
}

impl<const N: usize, U, T1, T2, T3, T4> From<(T1, T2, T3, T4)> for VectorMatrix<N, U>
where
    VectorArray<N, U>: From<T1>,
    VectorArray<N, U>: From<T2>,
    VectorArray<N, U>: From<T3>,
    VectorArray<N, U>: From<T4>,
{
    /// The ring sequence of the 4 point sequences, in their order.
    fn from(value: (T1, T2, T3, T4)) -> (r: Self)
        ensures
            r.0@.len() == 4,
            call_ensures(<VectorArray<N, U> as From<T1>>::from, (value.0,), r.0@[0]),
            call_ensures(<VectorArray<N, U> as From<T2>>::from, (value.1,), r.0@[1]),
            call_ensures(<VectorArray<N, U> as From<T3>>::from, (value.2,), r.0@[2]),
            call_ensures(<VectorArray<N, U> as From<T4>>::from, (value.3,), r.0@[3]),
    {
        let mut rings: Vec<VectorArray<N, U>> = Vec::new();
        rings.push(VectorArray::from(value.0));
        rings.push(VectorArray::from(value.1));
        rings.push(VectorArray::from(value.2));
        rings.push(VectorArray::from(value.3));
        Self(rings)
    }
}

impl<const N: usize, U, T1, T2, T3, T4> FromSpecImpl<(T1, T2, T3, T4)> for VectorMatrix<N, U>
where
    VectorArray<N, U>: From<T1>,
    VectorArray<N, U>: From<T2>,
    VectorArray<N, U>: From<T3>,
    VectorArray<N, U>: From<T4>,
{
    /// The result is stated by the method itself.
    open spec fn obeys_from_spec() -> bool {
        false
    }

    open spec fn from_spec(value: (T1, T2, T3, T4)) -> Self {
        arbitrary()
    }
}

impl<const N: usize, U, T1> From<T1> for VectorTensor<N, U>
where
    VectorMatrix<N, U>: From<T1>,
{
    /// The collection of one ring sequence.
    fn from(value: T1) -> (r: Self)
        ensures
            r.0@.len() == 1,
            call_ensures(<VectorMatrix<N, U> as From<T1>>::from, (value,), r.0@[0]),
    {
        let mut parts: Vec<VectorMatrix<N, U>> = Vec::new();
        parts.push(VectorMatrix::from(value));
        Self(parts)
    }
}

impl<const N: usize, U, T1> FromSpecImpl<T1> for VectorTensor<N, U>
where
    VectorMatrix<N, U>: From<T1>,
{
    /// The result is stated by the method itself.
    open spec fn obeys_from_spec() -> bool {
        false
    }

    open spec fn from_spec(value: T1) -> Self {
        arbitrary()
    }
}

impl<const N: usize, U> Deref for Vector<N, U> {
    type Target = [U; N];

    fn deref(&self) -> (r: &Self::Target)
        ensures
            *r == self.0,
    {
        &self.0
    }
}

impl<const N: usize, U> DerefMut for Vector<N, U> {
    fn deref_mut(&mut self) -> (r: &mut Self::Target)
        ensures
            *r == old(self).0,
            final(self).0 == *final(r),
    {
        &mut self.0
    }
}

impl<const N: usize, U> Deref for VectorArray<N, U> {
    type Target = [Vector<N, U>];

    fn deref(&self) -> (r: &Self::Target)
        ensures
            r@ == self.0@,
    {
        self.0.as_slice()
    }
}

impl<const N: usize, U> Deref for VectorMatrix<N, U> {
    type Target = [VectorArray<N, U>];

    fn deref(&self) -> (r: &Self::Target)
        ensures
            r@ == self.0@,
    {
        self.0.as_slice()
    }
}

impl<const N: usize, U> DerefMut for VectorMatrix<N, U> {
    fn deref_mut(&mut self) -> (r: &mut Self::Target)
        ensures
            r@ == old(self).0@,
            final(self).0@ == final(r)@,
    {
        self.0.as_mut_slice()
    }
}

impl<const N: usize, U> Deref for VectorTensor<N, U> {
    type Target = [VectorMatrix<N, U>];

    fn deref(&self) -> (r: &Self::Target)
        ensures
            r@ == self.0@,
    {
        self.0.as_slice()
    }
}

impl<const N: usize, U: Copy> VectorArray<N, U> {
    /// The sequence of the tuples, in their order.
    pub fn from_vec(points: Vec<[U; N]>) -> (r: Self)
        ensures
            r@ == points@.map_values(|p: [U; N]| p@),
    {
        let mut array: Vec<Vector<N, U>> = Vec::new();
        let mut i: usize = 0;
        while i < points.len()
            invariant
                i <= points@.len(),
                array@.len() == i,
                forall|j: int| 0 <= j < i ==> (#[trigger] array@[j])@ == points@[j]@,
            decreases points@.len() - i,
        {
            array.push(Vector(points[i]));
            i += 1;
        }
        let r = Self(array);
        assert(r@ =~= points@.map_values(|p: [U; N]| p@));
        r
    }
}

impl<const N: usize, U: Copy> VectorMatrix<N, U> {
    /// The ring sequence of the point sequences, in their order.
    pub fn from_vec(rings: Vec<Vec<[U; N]>>) -> (r: Self)
        ensures
            r@ == rings@.map_values(|a: Vec<[U; N]>| a@.map_values(|p: [U; N]| p@)),
    {
        let mut matrix: Vec<VectorArray<N, U>> = Vec::new();
        let mut rings = rings;
        let ghost given = rings@;
        let mut i: usize = 0;
        while i < rings.len()
            invariant
                i <= rings@.len(),
                rings@.len() == given.len(),
                matrix@.len() == i,
                forall|j: int| i <= j < rings@.len() ==> #[trigger] rings@[j] == given[j],
                forall|j: int|
                    0 <= j < i ==> (#[trigger] matrix@[j])@ == given[j]@.map_values(
                        |p: [U; N]| p@,
                    ),
            decreases rings@.len() - i,
        {
            let mut ring: Vec<[U; N]> = Vec::new();
            core::mem::swap(&mut ring, &mut rings[i]);
            matrix.push(VectorArray::from_vec(ring));
            i += 1;
        }
        let r = Self(matrix);
        assert(r@ =~= given.map_values(|a: Vec<[U; N]>| a@.map_values(|p: [U; N]| p@)));
        r
    }
}

impl<const N: usize, U: Copy> VectorTensor<N, U> {
    /// The collection of the ring sequences, in their order.
    pub fn from_vec(parts: Vec<Vec<Vec<[U; N]>>>) -> (r: Self)
        ensures
            r@ == parts@.map_values(
                |m: Vec<Vec<[U; N]>>|
                    m@.map_values(|a: Vec<[U; N]>| a@.map_values(|p: [U; N]| p@)),
            ),
    {
        let mut tensor: Vec<VectorMatrix<N, U>> = Vec::new();
        let mut parts = parts;
        let ghost given = parts@;
        let mut i: usize = 0;
        while i < parts.len()
            invariant
                i <= parts@.len(),
                parts@.len() == given.len(),
                tensor@.len() == i,
                forall|j: int| i <= j < parts@.len() ==> #[trigger] parts@[j] == given[j],
                forall|j: int|
                    0 <= j < i ==> (#[trigger] tensor@[j])@ == given[j]@.map_values(
                        |a: Vec<[U; N]>| a@.map_values(|p: [U; N]| p@),
                    ),
            decreases parts@.len() - i,
        {
            let mut part: Vec<Vec<[U; N]>> = Vec::new();
            core::mem::swap(&mut part, &mut parts[i]);
            tensor.push(VectorMatrix::from_vec(part));
            i += 1;
        }
        let r = Self(tensor);
        assert(r@ =~= given.map_values(
            |m: Vec<Vec<[U; N]>>| m@.map_values(|a: Vec<[U; N]>| a@.map_values(|p: [U; N]| p@)),
        ));
        r
    }
}

/// Whether `bound` bounds the float `value`: from above where `max` holds,
/// and else from below.
pub open spec fn bounds(bound: u64, value: u64, max: bool) -> bool {
    &&& !is_nan(value)
    &&& !is_nan(bound)
    &&& if max {
        rank(value) <= rank(bound)
    } else {
        rank(bound) <= rank(value)
    }
}

/// The extreme of a point sequence bounds every tuple of the sequence at
/// place `axis`.
pub proof fn lemma_array_extreme_bounds(points: Seq<Seq<u64>>, axis: int, max: bool)
    requires
        array_extreme(points, axis, max) is Ok,
    ensures
        forall|i: int|
            0 <= i < points.len() ==> bounds(
                array_extreme(points, axis, max)->Ok_0,
                #[trigger] points[i][axis],
                max,
            ),
{
    let values = axis_values(points, axis);
    lemma_pick_bounds(values, max);
    assert forall|i: int| 0 <= i < points.len() implies bounds(
        array_extreme(points, axis, max)->Ok_0,
        #[trigger] points[i][axis],
        max,
    ) by {
        assert(values[i] == points[i][axis]);
    }
}

/// The extreme of the extremes bounds each of them.
pub proof fn lemma_extreme_of_bounds(results: Seq<Result<u64, Error>>, max: bool)
    requires
        extreme_of(results, max) is Ok,
    ensures
        forall|i: int|
            0 <= i < results.len() ==> (#[trigger] results[i]) is Ok && bounds(
                extreme_of(results, max)->Ok_0,
                results[i]->Ok_0,
                max,
            ),
{
    let values = all_ok(results)->Ok_0;
    lemma_all_ok_values(results);
    lemma_pick_bounds(values, max);
    assert forall|i: int| 0 <= i < results.len() implies (#[trigger] results[i]) is Ok && bounds(
        extreme_of(results, max)->Ok_0,
        results[i]->Ok_0,
        max,
    ) by {
        assert(values[i] == results[i]->Ok_0);
    }
}

/// The extreme of a ring sequence bounds every tuple of every point sequence
/// in it at place `axis`.
pub proof fn lemma_matrix_extreme_bounds(rings: Seq<Seq<Seq<u64>>>, axis: int, max: bool)
    requires
        matrix_extreme(rings, axis, max) is Ok,
    ensures
        forall|i: int, j: int|
            0 <= i < rings.len() && 0 <= j < rings[i].len() ==> bounds(
                matrix_extreme(rings, axis, max)->Ok_0,
                #[trigger] rings[i][j][axis],
                max,
            ),
{
    let results = rings.map_values(|r: Seq<Seq<u64>>| array_extreme(r, axis, max));
    lemma_extreme_of_bounds(results, max);
    assert forall|i: int, j: int| 0 <= i < rings.len() && 0 <= j < rings[i].len() implies bounds(
        matrix_extreme(rings, axis, max)->Ok_0,
        #[trigger] rings[i][j][axis],
        max,
    ) by {
        assert(results[i] == array_extreme(rings[i], axis, max));
        lemma_array_extreme_bounds(rings[i], axis, max);
    }
}

/// The extreme of a collection of ring sequences bounds every tuple in it at
/// place `axis`.
pub proof fn lemma_tensor_extreme_bounds(parts: Seq<Seq<Seq<Seq<u64>>>>, axis: int, max: bool)
    requires
        tensor_extreme(parts, axis, max) is Ok,
    ensures
        forall|i: int, j: int, k: int|
            0 <= i < parts.len() && 0 <= j < parts[i].len() && 0 <= k < parts[i][j].len()
                ==> bounds(
                tensor_extreme(parts, axis, max)->Ok_0,
                #[trigger] parts[i][j][k][axis],
                max,
            ),
{
    let results = parts.map_values(|m: Seq<Seq<Seq<u64>>>| matrix_extreme(m, axis, max));
    lemma_extreme_of_bounds(results, max);
    assert forall|i: int, j: int, k: int|
        0 <= i < parts.len() && 0 <= j < parts[i].len() && 0 <= k < parts[i][j].len()
        implies bounds(
        tensor_extreme(parts, axis, max)->Ok_0,
        #[trigger] parts[i][j][k][axis],
        max,
    ) by {
        assert(results[i] == matrix_extreme(parts[i], axis, max));
        lemma_matrix_extreme_bounds(parts[i], axis, max);
    }
}

/// Whether every ring is closed.
pub open spec fn rings_closed(rings: Seq<Seq<Seq<u64>>>) -> bool {
    forall|i: int| 0 <= i < rings.len() ==> is_closed(#[trigger] rings[i])
}

/// Whether every ring can be closed: none starts with a tuple that holds a
/// NaN, which equals nothing.
pub open spec fn closable(rings: Seq<Seq<Seq<u64>>>) -> bool {
    forall|i: int|
        0 <= i < rings.len() && rings[i].len() > 0 ==> !has_nan((#[trigger] rings[i]).first())
}

/// Closing every ring leaves every ring closed, and closing them once more
/// changes nothing: as long as no ring starts with a tuple that holds a NaN.
pub proof fn lemma_close_rings_idempotent(rings: Seq<Seq<Seq<u64>>>)
    requires
        closable(rings),
    ensures
        rings_closed(all_closed(rings)),
        all_closed(all_closed(rings)) == all_closed(rings),
{
    assert forall|i: int| 0 <= i < rings.len() implies is_closed(#[trigger] all_closed(rings)[i])
        && closed(all_closed(rings)[i]) == all_closed(rings)[i] by {
        lemma_close_ring_idempotent(rings[i]);
    }
    assert(all_closed(all_closed(rings)) =~= all_closed(rings));
}

} // verus!
