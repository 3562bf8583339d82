//! What all entities share: access to their coordinates by position, and the
//! operations that treat every coordinate alike.
use crate::arith::{distance, fits, product};
use vstd::prelude::*;

verus! {

/// The sum of the squares of the members of `s`.
pub open spec fn sum_of_squares(s: Seq<int>) -> int
    decreases s.len(),
{
    if s.len() == 0 {
        0
    } else {
        sum_of_squares(s.drop_last()) + s.last() * s.last()
    }
}

/// Whether every member of `s` is zero.
pub open spec fn all_zero(s: Seq<int>) -> bool {
    forall|i: int| 0 <= i < s.len() ==> s[i] == 0
}

/// Whether `a` and `b` differ by at most `epsilon` in every position.
pub open spec fn all_within(a: Seq<int>, b: Seq<int>, epsilon: int) -> bool {
    forall|i: int| 0 <= i < a.len() ==> -epsilon <= (#[trigger] a[i]) - b[i] <= epsilon
}

/// Appending a member adds its square to the sum.
pub proof fn lemma_sum_of_squares_push(s: Seq<int>, v: int)
    ensures
        sum_of_squares(s.push(v)) == sum_of_squares(s) + v * v,
{
    assert(s.push(v).drop_last() =~= s);
}

/// A sum of squares is not negative, and it grows with the sequence.
pub proof fn lemma_sum_of_squares_grows(s: Seq<int>, n: int)
    requires
        0 <= n <= s.len(),
    ensures
        0 <= sum_of_squares(s.take(n)) <= sum_of_squares(s),
    decreases s.len(),
{
    if s.len() == 0 {
        assert(s.take(n) =~= s);
    } else if n == s.len() {
        assert(s.take(n) =~= s);
        lemma_sum_of_squares_grows(s.drop_last(), n - 1);
        assert(s.last() * s.last() >= 0) by (nonlinear_arith);
    } else {
        lemma_sum_of_squares_grows(s.drop_last(), n);
        assert(s.drop_last().take(n) =~= s.take(n));
        assert(s.last() * s.last() >= 0) by (nonlinear_arith);
    }
}

/// A sum of squares is zero exactly when every member is zero.
pub proof fn lemma_sum_of_squares_zero(s: Seq<int>)
    ensures
        sum_of_squares(s) == 0 <==> all_zero(s),
    decreases s.len(),
{
    if s.len() > 0 {
        let front = s.drop_last();
        let last = s.last();
        lemma_sum_of_squares_zero(front);
        lemma_sum_of_squares_grows(front, front.len() as int);
        assert(front.take(front.len() as int) =~= front);
        assert(last * last >= 0 && (last * last == 0 <==> last == 0)) by (nonlinear_arith);
        if all_zero(s) {
            assert(s[s.len() - 1] == 0);
            assert forall|i: int| 0 <= i < front.len() implies front[i] == 0 by {
                assert(front[i] == s[i]);
            }
        }
        if sum_of_squares(s) == 0 {
            assert(all_zero(front));
            assert forall|i: int| 0 <= i < s.len() implies s[i] == 0 by {
                if i < front.len() {
                    assert(front[i] == s[i]);
                }
            }
        }
    }
}

/// An entity of the algebra: a short tuple of coordinates, one for each basis
/// blade that the entity spans.
///
/// Most coordinates are stored. A few are implicit: they have the same value
/// in every entity of the type and cannot be changed, such as the weight of a
/// `Point3`, which is always one.
pub trait GeometricEntity: Sized {
    /// The coordinates, implicit ones included.
    spec fn coordinates(&self) -> Seq<int>;

    /// How many coordinates an entity of this type has.
    spec fn dimension() -> nat;

    /// Whether the coordinate at `i` is stored.
    spec fn stored(i: int) -> bool;

    /// The value of the coordinate at `i`, where it is implicit.
    spec fn implicit(i: int) -> int;

    /// Every entity of the type has `dimension()` coordinates, each of them
    /// such as can be stored, and its implicit coordinates have their fixed
    /// values.
    proof fn lemma_shape(&self)
        ensures
            self.coordinates().len() == Self::dimension(),
            forall|i: int| 0 <= i < Self::dimension() ==> fits(#[trigger] self.coordinates()[i]),
            forall|i: int|
                0 <= i < Self::dimension() && !Self::stored(i) ==> self.coordinates()[i]
                    == Self::implicit(i),
    ;

    /// The number of coordinates.
    fn blade_count() -> (n: usize)
        ensures
            n == Self::dimension(),
    ;

    /// The entity whose stored coordinates are all zero.
    fn zero() -> (r: Self)
        ensures
            forall|i: int|
                0 <= i < Self::dimension() && Self::stored(i) ==> r.coordinates()[i] == 0,
    ;

    /// The coordinate at `i`.
    fn coordinate(&self, i: usize) -> (r: i64)
        requires
            i < Self::dimension(),
        ensures
            r == self.coordinates()[i as int],
    ;

    /// Replaces the coordinate at `i`, if it is stored, and changes nothing
    /// if it is implicit.
    fn set_coordinate(&mut self, i: usize, value: i64)
        requires
            i < Self::dimension(),
        ensures
            final(self).coordinates() == (if Self::stored(i as int) {
                old(self).coordinates().update(i as int, value as int)
            } else {
                old(self).coordinates()
            }),
    ;
}

/// The length of an entity, taken over all its coordinates.
pub trait Magnitude: GeometricEntity {
    /// The sum of the squares of all coordinates.
    fn length_squared(&self) -> (r: u128)
        requires
            sum_of_squares(self.coordinates()) <= u128::MAX,
        ensures
            r == sum_of_squares(self.coordinates()),
    ;

    /// Whether every coordinate is zero, that is, whether the length is zero.
    fn is_zero(&self) -> (r: bool)
        ensures
            r <==> all_zero(self.coordinates()),
            r <==> sum_of_squares(self.coordinates()) == 0,
    ;
}

impl<T: GeometricEntity> Magnitude for T {
    fn length_squared(&self) -> (r: u128) {
        let n: usize = T::blade_count();
        let mut total: u128 = 0;
        let mut i: usize = 0;
        proof {
            self.lemma_shape();
            assert(self.coordinates().take(0) =~= Seq::<int>::empty());
        }
        while i < n
            invariant
                0 <= i <= n,
                n == T::dimension(),
                n == self.coordinates().len(),
                sum_of_squares(self.coordinates()) <= u128::MAX,
                total == sum_of_squares(self.coordinates().take(i as int)),
            decreases n - i,
        {
            let c: i64 = self.coordinate(i);
            let square: i128 = product(c, c);
            proof {
                let s = self.coordinates();
                lemma_sum_of_squares_grows(s, i + 1);
                assert(s.take(i + 1).drop_last() =~= s.take(i as int));
                assert(s.take(i + 1).last() == c);
                assert(c * c >= 0) by (nonlinear_arith);
            }
            total = total + (square as u128);
            i += 1;
        }
        proof {
            assert(self.coordinates().take(n as int) =~= self.coordinates());
        }
        total
    }

    fn is_zero(&self) -> (r: bool) {
        let n: usize = T::blade_count();
        let mut i: usize = 0;
        proof {
            self.lemma_shape();
            lemma_sum_of_squares_zero(self.coordinates());
        }
        while i < n
            invariant
                0 <= i <= n,
                n == T::dimension(),
                n == self.coordinates().len(),
                all_zero(self.coordinates()) <==> sum_of_squares(self.coordinates()) == 0,
                forall|j: int| 0 <= j < i ==> self.coordinates()[j] == 0,
            decreases n - i,
        {
            if self.coordinate(i) != 0 {
                return false;
            }
            i += 1;
        }
        true
    }
}

/// The entity with every stored coordinate negated. Implicit coordinates stay
/// as they are.
pub open spec fn negated_coordinate<T: GeometricEntity>(value: T, i: int) -> int {
    if T::stored(i) {
        -value.coordinates()[i]
    } else {
        value.coordinates()[i]
    }
}

/// Whether every stored coordinate of `value` has a negative that can be stored.
pub open spec fn negatable<T: GeometricEntity>(value: T) -> bool {
    forall|i: int|
        0 <= i < T::dimension() && T::stored(i) ==> value.coordinates()[i] > i64::MIN
}

/// Negates every stored coordinate of `value`. The result can be negated
/// again, which gives `value` back.
pub fn neg<T: GeometricEntity>(value: T) -> (r: T)
    requires
        negatable(value),
    ensures
        r.coordinates().len() == T::dimension(),
        forall|i: int|
            0 <= i < T::dimension() ==> r.coordinates()[i] == negated_coordinate(value, i),
        negatable(r),
{
    let mut result = T::zero();
    let n: usize = T::blade_count();
    let mut i: usize = 0;
    while i < n
        invariant
            0 <= i <= n,
            n == T::dimension(),
            negatable(value),
            forall|j: int| 0 <= j < i ==> result.coordinates()[j] == negated_coordinate(value, j),
        decreases n - i,
    {
        let c: i64 = value.coordinate(i);
        let ghost before = result.coordinates();
        proof {
            value.lemma_shape();
            result.lemma_shape();
        }
        if c != i64::MIN {
            result.set_coordinate(i, -c);
        }
        proof {
            result.lemma_shape();
            assert forall|j: int| 0 <= j < i + 1 implies result.coordinates()[j]
                == negated_coordinate(value, j) by {
                if j < i {
                    assert(before[j] == negated_coordinate(value, j));
                }
            }
        }
        i += 1;
    }
    proof {
        result.lemma_shape();
        value.lemma_shape();
        assert forall|j: int|
            0 <= j < T::dimension() && T::stored(j) implies result.coordinates()[j]
            > i64::MIN by {
            assert(result.coordinates()[j] == negated_coordinate(value, j));
            assert(fits(value.coordinates()[j]));
        }
    }
    result
}

/// Negating twice gives the coordinates back: where `once` is the negation of
/// `value` and `twice` the negation of `once`, `twice` has the coordinates of
/// `value`.
pub proof fn lemma_neg_twice<T: GeometricEntity>(value: T, once: T, twice: T)
    requires
        forall|i: int|
            0 <= i < T::dimension() ==> once.coordinates()[i] == negated_coordinate(value, i),
        forall|i: int|
            0 <= i < T::dimension() ==> twice.coordinates()[i] == negated_coordinate(once, i),
    ensures
        twice.coordinates() == value.coordinates(),
{
    value.lemma_shape();
    once.lemma_shape();
    twice.lemma_shape();
    assert forall|i: int| 0 <= i < T::dimension() implies twice.coordinates()[i]
        == value.coordinates()[i] by {
        assert(once.coordinates()[i] == negated_coordinate(value, i));
        assert(twice.coordinates()[i] == negated_coordinate(once, i));
    }
    assert(twice.coordinates() =~= value.coordinates());
}

/// The tolerance of `approx_eq`. Coordinates are whole numbers, so that the
/// default comparison is exact.
pub const DEFAULT_EPSILON: u64 = 0;

/// Comparison up to a tolerance.
pub trait ApproxEq {
    /// Whether `self` and `other` differ by at most `epsilon` in every
    /// coordinate.
    spec fn close_to(&self, other: &Self, epsilon: int) -> bool;

    /// Whether two values are equal within the default tolerance.
    fn approx_eq(&self, other: &Self) -> (r: bool)
        ensures
            r == self.close_to(other, DEFAULT_EPSILON as int),
    {
        self.approx_eq_eps(other, DEFAULT_EPSILON)
    }

    /// Whether two values are equal within `epsilon`.
    fn approx_eq_eps(&self, other: &Self, epsilon: u64) -> (r: bool)
        ensures
            r == self.close_to(other, epsilon as int),
    ;
}

impl ApproxEq for i64 {
    open spec fn close_to(&self, other: &Self, epsilon: int) -> bool {
        -epsilon <= *self - *other <= epsilon
    }

    fn approx_eq_eps(&self, other: &Self, epsilon: u64) -> (r: bool) {
        distance(*self, *other) <= epsilon
    }
}

impl<T: GeometricEntity> ApproxEq for T {
    open spec fn close_to(&self, other: &Self, epsilon: int) -> bool {
        all_within(self.coordinates(), other.coordinates(), epsilon)
    }

    fn approx_eq_eps(&self, other: &Self, epsilon: u64) -> (r: bool) {
        let n: usize = T::blade_count();
        let mut i: usize = 0;
        proof {
            self.lemma_shape();
            other.lemma_shape();
        }
        while i < n
            invariant
                0 <= i <= n,
                n == T::dimension(),
                n == self.coordinates().len(),
                n == other.coordinates().len(),
                forall|j: int|
                    0 <= j < i ==> -epsilon <= (#[trigger] self.coordinates()[j])
                        - other.coordinates()[j] <= epsilon,
            decreases n - i,
        {
            if distance(self.coordinate(i), other.coordinate(i)) > epsilon {
                assert(!(-epsilon <= self.coordinates()[i as int] - other.coordinates()[i as int]
                    <= epsilon));
                return false;
            }
            i += 1;
        }
        true
    }
}

} // verus!
