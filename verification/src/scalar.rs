//! The element type of a tensor buffer.
//!
//! A kernel never looks inside an element: it only combines elements through
//! the operations of [`Scalar`], in an order that its contract fixes. What a
//! kernel returns is therefore exact for every element type, including those
//! whose arithmetic is not associative.

use vstd::prelude::*;

verus! {

/// An element of a tensor buffer, with the arithmetic the kernels need.
///
/// Each executable operation has a specification twin that names its result;
/// an implementation states what its own arithmetic computes.
pub trait Scalar: Copy {
    /// The additive unit.
    spec fn zero_spec() -> Self;

    /// The multiplicative unit.
    spec fn one_spec() -> Self;

    /// `self + rhs`.
    spec fn plus_spec(self, rhs: Self) -> Self;

    /// `self * rhs`.
    spec fn times_spec(self, rhs: Self) -> Self;

    /// `self < rhs`.
    spec fn less_spec(self, rhs: Self) -> bool;

    /// The additive unit.
    fn zero() -> (r: Self)
        ensures
            r == Self::zero_spec(),
    ;

    /// The multiplicative unit.
    fn one() -> (r: Self)
        ensures
            r == Self::one_spec(),
    ;

    /// `self + rhs`.
    fn plus(self, rhs: Self) -> (r: Self)
        ensures
            r == self.plus_spec(rhs),
    ;

    /// `self * rhs`.
    fn times(self, rhs: Self) -> (r: Self)
        ensures
            r == self.times_spec(rhs),
    ;

    /// `self < rhs`.
    fn less(self, rhs: Self) -> (b: bool)
        ensures
            b == self.less_spec(rhs),
    ;
}

/// `a + 0 == a`.
pub open spec fn plus_zero_keeps<T: Scalar>(a: T) -> bool {
    a.plus_spec(T::zero_spec()) == a
}

/// `a * 1 == a`.
pub open spec fn times_one_keeps<T: Scalar>(a: T) -> bool {
    a.times_spec(T::one_spec()) == a
}

/// `a * 0 == 0`.
pub open spec fn times_zero_clears<T: Scalar>(a: T) -> bool {
    a.times_spec(T::zero_spec()) == T::zero_spec()
}

/// `0 * a == 0`.
pub open spec fn zero_times_clears<T: Scalar>(a: T) -> bool {
    T::zero_spec().times_spec(a) == T::zero_spec()
}

/// `1 * a == a`.
pub open spec fn one_times_keeps<T: Scalar>(a: T) -> bool {
    T::one_spec().times_spec(a) == a
}

/// `0 + a == a`.
pub open spec fn zero_plus_keeps<T: Scalar>(a: T) -> bool {
    T::zero_spec().plus_spec(a) == a
}

/// Neither unit lies below itself, and one does not lie below zero.
pub open spec fn units_ordered<T: Scalar>() -> bool {
    &&& !T::zero_spec().less_spec(T::zero_spec())
    &&& !T::one_spec().less_spec(T::one_spec())
    &&& !T::one_spec().less_spec(T::zero_spec())
}

/// The integers modulo 2^64, read as signed: an exact ring, ordered as `i64`.
impl Scalar for i64 {
    open spec fn zero_spec() -> i64 {
        0
    }

    open spec fn one_spec() -> i64 {
        1
    }

    open spec fn plus_spec(self, rhs: i64) -> i64 {
        self.wrapping_add(rhs)
    }

    open spec fn times_spec(self, rhs: i64) -> i64 {
        self.wrapping_mul(rhs)
    }

    open spec fn less_spec(self, rhs: i64) -> bool {
        self < rhs
    }

    fn zero() -> (r: i64) {
        0
    }

    fn one() -> (r: i64) {
        1
    }

    fn plus(self, rhs: i64) -> (r: i64) {
        self.wrapping_add(rhs)
    }

    fn times(self, rhs: i64) -> (r: i64) {
        self.wrapping_mul(rhs)
    }

    fn less(self, rhs: i64) -> (b: bool) {
        self < rhs
    }
}

/// Every unit law holds of every `i64`.
pub proof fn integer_unit_laws(a: i64)
    ensures
        plus_zero_keeps(a),
        zero_plus_keeps(a),
        times_one_keeps(a),
        one_times_keeps(a),
        times_zero_clears(a),
        zero_times_clears(a),
        units_ordered::<i64>(),
{
}

/// `start` with `value` added onto it `n` times.
pub open spec fn add_times<T: Scalar>(start: T, value: T, n: nat) -> T
    decreases n,
{
    if n == 0 {
        start
    } else {
        add_times(start, value, (n - 1) as nat).plus_spec(value)
    }
}

/// Counting up from zero by ones reaches `n`, as long as `n` is an `i64`.
pub proof fn integer_count(n: nat)
    requires
        n <= i64::MAX,
    ensures
        add_times(0i64, 1i64, n) == n,
    decreases n,
{
    if n != 0 {
        integer_count((n - 1) as nat);
    }
}

} // verus!
