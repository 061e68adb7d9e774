//! The numbers of the plane, as far as the library needs them.

use vstd::prelude::*;

verus! {

/// A number of the plane. The library never looks inside one: it makes
/// whole numbers, combines numbers with the four operations, and asks which
/// of two is the lesser. What the operations give is the implementor's
/// affair; the library says of its own results which operations they came
/// from.
pub trait Scalar: Copy {
    /// The whole number `n`.
    fn whole(n: u16) -> Self;

    /// This number plus `other`.
    fn plus(self, other: Self) -> Self;

    /// This number minus `other`.
    fn minus(self, other: Self) -> Self;

    /// This number times `other`.
    fn times(self, other: Self) -> Self;

    /// This number divided by `other`.
    fn over(self, other: Self) -> Self;

    /// Whether this number is strictly less than `other`.
    fn below(self, other: Self) -> bool;
}

/// Whether `s` is a value that the number type gives for the whole number
/// `n`.
pub open spec fn is_whole<S: Scalar>(n: u16, s: S) -> bool {
    call_ensures(S::whole, (n,), s)
}

/// Whether `s` is a value that the number type gives for `a + b`.
pub open spec fn is_sum<S: Scalar>(a: S, b: S, s: S) -> bool {
    call_ensures(S::plus, (a, b), s)
}

/// Whether `d` is a value that the number type gives for `a - b`.
pub open spec fn is_difference<S: Scalar>(a: S, b: S, d: S) -> bool {
    call_ensures(S::minus, (a, b), d)
}

/// Whether `p` is a value that the number type gives for `a * b`.
pub open spec fn is_product<S: Scalar>(a: S, b: S, p: S) -> bool {
    call_ensures(S::times, (a, b), p)
}

/// Whether `q` is a value that the number type gives for `a / b`.
pub open spec fn is_quotient<S: Scalar>(a: S, b: S, q: S) -> bool {
    call_ensures(S::over, (a, b), q)
}

/// Whether `answer` is an answer that the number type gives to `a < b`.
pub open spec fn is_less<S: Scalar>(a: S, b: S, answer: bool) -> bool {
    call_ensures(S::below, (a, b), answer)
}

/// The whole number `n`.
pub fn number<S: Scalar>(n: u16) -> (s: S)
    ensures
        is_whole(n, s),
{
    S::whole(n)
}

/// `a + b`.
pub fn sum<S: Scalar>(a: S, b: S) -> (s: S)
    ensures
        is_sum(a, b, s),
{
    a.plus(b)
}

/// `a - b`.
pub fn difference<S: Scalar>(a: S, b: S) -> (d: S)
    ensures
        is_difference(a, b, d),
{
    a.minus(b)
}

/// `a * b`.
pub fn product<S: Scalar>(a: S, b: S) -> (p: S)
    ensures
        is_product(a, b, p),
{
    a.times(b)
}

/// `a / b`.
pub fn quotient<S: Scalar>(a: S, b: S) -> (q: S)
    ensures
        is_quotient(a, b, q),
{
    a.over(b)
}

/// Whether `a < b`.
pub fn less<S: Scalar>(a: S, b: S) -> (answer: bool)
    ensures
        is_less(a, b, answer),
{
    a.below(b)
}

} // verus!
