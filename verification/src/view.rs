//! The formulas of the view rectangle: where a fraction of a span lies, how
//! an origin pans and recentres, what a session starts with. Each formula
//! comes as a relation, which says which operations of the number type make
//! up a value, and as the function that performs them.

use crate::scalar::{
    difference, is_difference, is_less, is_product, is_quotient, is_sum, is_whole, less, number,
    product, quotient, sum, Scalar,
};
use vstd::prelude::*;

verus! {

/// Whether `u` is the fraction `part / of`.
pub open spec fn is_fraction<S: Scalar>(part: u16, of: u16, u: S) -> bool {
    exists|p: S, w: S|
        {
            &&& #[trigger] is_whole(part, p)
            &&& #[trigger] is_whole(of, w)
            &&& is_quotient(p, w, u)
        }
}

/// The fraction `part / of`.
pub fn fraction<S: Scalar>(part: u16, of: u16) -> (u: S)
    ensures
        is_fraction(part, of, u),
{
    quotient(number(part), number(of))
}

/// Whether `s` is the negative whole number `0 - n`.
pub open spec fn is_negative<S: Scalar>(n: u16, s: S) -> bool {
    exists|zero: S, m: S|
        {
            &&& #[trigger] is_whole(0, zero)
            &&& #[trigger] is_whole(n, m)
            &&& is_difference(zero, m, s)
        }
}

/// The negative whole number `0 - n`.
pub fn negative<S: Scalar>(n: u16) -> (s: S)
    ensures
        is_negative(n, s),
{
    difference(number(0), number(n))
}

/// Whether `answer` is what the number type answers to `0 < s`.
pub open spec fn is_above_zero<S: Scalar>(s: S, answer: bool) -> bool {
    exists|zero: S| #[trigger] is_whole(0, zero) && is_less(zero, s, answer)
}

/// Whether the number type finds `s` above zero.
pub open spec fn is_positive<S: Scalar>(s: S) -> bool {
    is_above_zero(s, true)
}

/// Whether `0 < s`.
pub fn above_zero<S: Scalar>(s: S) -> (answer: bool)
    ensures
        is_above_zero(s, answer),
{
    less(number(0), s)
}

/// Whether `at` is `origin + u * span`: the place the fraction `u` of the way
/// along a span.
pub open spec fn is_along<S: Scalar>(origin: S, span: S, u: S, at: S) -> bool {
    exists|reach: S| #[trigger] is_product(u, span, reach) && is_sum(origin, reach, at)
}

/// The place the fraction `u` of the way along a span: `origin + u * span`.
pub fn along<S: Scalar>(origin: S, span: S, u: S) -> (at: S)
    ensures
        is_along(origin, span, u, at),
{
    sum(origin, product(u, span))
}

/// Whether `moved` is `origin - step * span`: an origin one step back.
pub open spec fn is_back<S: Scalar>(origin: S, step: S, span: S, moved: S) -> bool {
    exists|stride: S| #[trigger]
        is_product(step, span, stride) && is_difference(origin, stride, moved)
}

/// An origin one step back: `origin - step * span`.
pub fn back<S: Scalar>(origin: S, step: S, span: S) -> (moved: S)
    ensures
        is_back(origin, step, span, moved),
{
    difference(origin, product(step, span))
}

/// Whether `moved` is `origin + step * span`: an origin one step on.
pub open spec fn is_forth<S: Scalar>(origin: S, step: S, span: S, moved: S) -> bool {
    exists|stride: S| #[trigger] is_product(step, span, stride) && is_sum(origin, stride, moved)
}

/// An origin one step on: `origin + step * span`.
pub fn forth<S: Scalar>(origin: S, step: S, span: S) -> (moved: S)
    ensures
        is_forth(origin, step, span, moved),
{
    sum(origin, product(step, span))
}

/// Whether `factor` is `1 + step`, for a zoom outward, or `1 - step`.
pub open spec fn is_factor<S: Scalar>(step: S, outward: bool, factor: S) -> bool {
    exists|one: S| #[trigger]
        is_whole(1, one) && if outward {
            is_sum(one, step, factor)
        } else {
            is_difference(one, step, factor)
        }
}

/// The factor of a zoom: `1 + step` outward, `1 - step` inward.
pub fn factor<S: Scalar>(step: S, outward: bool) -> (factor: S)
    ensures
        is_factor(step, outward, factor),
{
    if outward {
        sum(number(1), step)
    } else {
        difference(number(1), step)
    }
}

/// Whether `moved` is `origin - half * (grown - span)`, `half` being the
/// fraction `1 / 2`: the origin that keeps the centre where a span has
/// become `grown`.
pub open spec fn is_recentred<S: Scalar>(origin: S, span: S, grown: S, moved: S) -> bool {
    exists|half: S, growth: S, shift: S|
        {
            &&& #[trigger] is_fraction(1, 2, half)
            &&& #[trigger] is_difference(grown, span, growth)
            &&& #[trigger] is_product(half, growth, shift)
            &&& is_difference(origin, shift, moved)
        }
}

/// The origin that keeps the centre where a span has become `grown`:
/// `origin - half * (grown - span)`.
pub fn recentred<S: Scalar>(origin: S, span: S, grown: S) -> (moved: S)
    ensures
        is_recentred(origin, span, grown, moved),
{
    difference(origin, product(fraction(1, 2), difference(grown, span)))
}

/// Whether `span` is the width of the initial view for a grid of `width` by
/// `height` cells: `3 * (width / height / 3)`, three wide on a grid three
/// times as wide as it is high.
pub open spec fn is_initial_span<S: Scalar>(width: u16, height: u16, span: S) -> bool {
    exists|aspect: S, three: S, ratio: S|
        {
            &&& #[trigger] is_fraction(width, height, aspect)
            &&& #[trigger] is_whole(3, three)
            &&& #[trigger] is_quotient(aspect, three, ratio)
            &&& is_product(three, ratio, span)
        }
}

/// The width of the initial view for a grid of `width` by `height` cells.
pub fn initial_span<S: Scalar>(width: u16, height: u16) -> (span: S)
    ensures
        is_initial_span(width, height, span),
{
    let three: S = number(3);
    product(three, quotient(fraction(width, height), three))
}

/// Whether `origin` is the left edge of the initial view of width `span`:
/// `(0 - half) - half * span`, `half` being the fraction `1 / 2`, which
/// centres the view on minus one half.
pub open spec fn is_initial_origin<S: Scalar>(span: S, origin: S) -> bool {
    exists|zero: S, half: S, centre: S, reach: S|
        {
            &&& #[trigger] is_whole(0, zero)
            &&& #[trigger] is_fraction(1, 2, half)
            &&& #[trigger] is_difference(zero, half, centre)
            &&& #[trigger] is_product(half, span, reach)
            &&& is_difference(centre, reach, origin)
        }
}

/// The left edge of the initial view of width `span`.
pub fn initial_origin<S: Scalar>(span: S) -> (origin: S)
    ensures
        is_initial_origin(span, origin),
{
    let half: S = fraction(1, 2);
    difference(difference(number(0), half), product(half, span))
}

} // verus!
