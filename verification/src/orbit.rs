//! The escape-time rule: how long the orbit of a point stays inside the
//! escape radius.

use crate::scalar::{
    difference, is_difference, is_less, is_product, is_sum, is_whole, less, number, product,
    sum, Scalar,
};
use vstd::prelude::*;

verus! {

/// A point of the plane.
pub struct Point<S: Scalar> {
    /// The real part.
    pub x: S,
    /// The imaginary part.
    pub y: S,
}

/// How an orbit ended.
#[derive(Clone, Copy, Debug, PartialEq, Eq, Structural)]
pub enum Outcome {
    /// The orbit was still inside the escape radius when the cutoff was
    /// reached.
    InSet,
    /// The orbit left the escape radius: this many iterates were inside it
    /// before the first one outside.
    Escaped(usize),
}

/// What to do after one test of an iterate against the escape radius.
#[derive(Clone, Copy, Debug, PartialEq, Eq, Structural)]
pub enum Progress {
    /// Take the next step; this many steps have then been counted.
    Step(usize),
    /// The orbit is decided.
    Done(Outcome),
}

/// Whether `inside` answers the radius test of `z`: whether
/// `x * x + y * y < 4`, the escape radius being 2.
pub open spec fn is_bounded<S: Scalar>(z: Point<S>, inside: bool) -> bool {
    exists|xx: S, yy: S, norm: S, four: S|
        {
            &&& #[trigger] is_product(z.x, z.x, xx)
            &&& #[trigger] is_product(z.y, z.y, yy)
            &&& #[trigger] is_sum(xx, yy, norm)
            &&& #[trigger] is_whole(4, four)
            &&& is_less(norm, four, inside)
        }
}

/// Whether `next` is the iterate `z * z + c` that follows `z`: its real part
/// is `x * x - y * y + cx`, its imaginary part `2 * x * y + cy`, both from
/// the parts of `z` itself.
pub open spec fn is_step<S: Scalar>(z: Point<S>, c: Point<S>, next: Point<S>) -> bool {
    exists|xx: S, yy: S, gap: S, two: S, twice: S, cross: S|
        {
            &&& #[trigger] is_product(z.x, z.x, xx)
            &&& #[trigger] is_product(z.y, z.y, yy)
            &&& #[trigger] is_difference(xx, yy, gap)
            &&& is_sum(gap, c.x, next.x)
            &&& #[trigger] is_whole(2, two)
            &&& #[trigger] is_product(two, z.x, twice)
            &&& #[trigger] is_product(twice, z.y, cross)
            &&& is_sum(cross, c.y, next.y)
        }
}

/// The decision after testing the iterate reached in `count` steps: an
/// iterate outside the radius ends the orbit as escaped after `count`
/// steps; one inside is counted, and ends the orbit as in the set when the
/// count reaches the cutoff.
pub open spec fn spec_observe(count: usize, inside: bool, max_iterations: usize) -> Progress {
    if !inside {
        Progress::Done(Outcome::Escaped(count))
    } else if count + 1 == max_iterations {
        Progress::Done(Outcome::InSet)
    } else {
        Progress::Step((count + 1) as usize)
    }
}

/// Whether the orbit of `c` can end in `outcome` from the iterate `z`
/// reached in `count` steps: some answer to the radius test of `z` leads
/// there.
pub open spec fn can_end<S: Scalar>(
    z: Point<S>,
    c: Point<S>,
    count: usize,
    max_iterations: usize,
    outcome: Outcome,
) -> bool
    decreases max_iterations - count, 1int,
{
    count < max_iterations && exists|inside: bool| #[trigger]
        is_bounded(z, inside) && leads_to(z, c, count, max_iterations, inside, outcome)
}

/// Whether the answer `inside` to the radius test of `z` leads to
/// `outcome`: either the answer decides the orbit that way, or it asks for
/// a step, and the orbit can end in `outcome` from an iterate that follows,
/// with one more step counted.
pub open spec fn leads_to<S: Scalar>(
    z: Point<S>,
    c: Point<S>,
    count: usize,
    max_iterations: usize,
    inside: bool,
    outcome: Outcome,
) -> bool
    decreases max_iterations - count, 0int,
{
    match spec_observe(count, inside, max_iterations) {
        Progress::Done(end) => outcome == end,
        Progress::Step(counted) => count < max_iterations && exists|next: Point<S>| #[trigger]
            is_step(z, c, next) && can_end(next, c, counted, max_iterations, outcome),
    }
}

/// Whether the orbit that starts at `c` can end in `outcome`.
pub open spec fn is_escape_time<S: Scalar>(
    c: Point<S>,
    max_iterations: usize,
    outcome: Outcome,
) -> bool {
    can_end(c, c, 0, max_iterations, outcome)
}

/// Tests an iterate against the escape radius.
pub fn bounded<S: Scalar>(z: &Point<S>) -> (inside: bool)
    ensures
        is_bounded(*z, inside),
{
    less(sum(product(z.x, z.x), product(z.y, z.y)), number(4))
}

/// The iterate that follows `z` in the orbit of `c`.
pub fn step<S: Scalar>(z: &Point<S>, c: &Point<S>) -> (next: Point<S>)
    ensures
        is_step(*z, *c, next),
{
    let y2 = product(z.y, z.y);
    let y = sum(product(product(number(2), z.x), z.y), c.y);
    let x = sum(difference(product(z.x, z.x), y2), c.x);
    Point { x, y }
}

/// Decides how an orbit goes on after one test against the escape radius.
pub fn observe(count: usize, inside: bool, max_iterations: usize) -> (progress: Progress)
    requires
        count < max_iterations,
    ensures
        progress == spec_observe(count, inside, max_iterations),
{
    if !inside {
        Progress::Done(Outcome::Escaped(count))
    } else if count + 1 == max_iterations {
        Progress::Done(Outcome::InSet)
    } else {
        Progress::Step(count + 1)
    }
}

/// Follows the orbit of `c`, which starts at `c` itself, until an iterate is
/// outside the escape radius or `max_iterations` iterates in a row were
/// inside it.
pub fn escape_time<S: Scalar>(c: &Point<S>, max_iterations: usize) -> (outcome: Outcome)
    requires
        max_iterations >= 1,
    ensures
        is_escape_time(*c, max_iterations, outcome),
{
    let mut z = Point { x: c.x, y: c.y };
    let mut count: usize = 0;
    loop
        invariant
            count < max_iterations,
            forall|end: Outcome| #[trigger]
                can_end(z, *c, count, max_iterations, end) ==> can_end(
                    *c,
                    *c,
                    0,
                    max_iterations,
                    end,
                ),
        decreases max_iterations - count,
    {
        let inside = bounded(&z);
        match observe(count, inside, max_iterations) {
            Progress::Done(outcome) => {
                assert(can_end(z, *c, count, max_iterations, outcome));
                return outcome;
            },
            Progress::Step(counted) => {
                let next = step(&z, c);
                assert forall|end: Outcome| #[trigger]
                    can_end(next, *c, counted, max_iterations, end) implies can_end(
                    *c,
                    *c,
                    0,
                    max_iterations,
                    end,
                ) by {
                    assert(can_end(z, *c, count, max_iterations, end));
                }
                z = next;
                count = counted;
            },
        }
    }
}

/// An escape is always reported with fewer steps than the cutoff.
pub proof fn escape_count_below_cutoff<S: Scalar>(
    z: Point<S>,
    c: Point<S>,
    count: usize,
    max_iterations: usize,
    outcome: Outcome,
)
    requires
        can_end(z, c, count, max_iterations, outcome),
    ensures
        outcome matches Outcome::Escaped(steps) ==> count <= steps < max_iterations,
    decreases max_iterations - count,
{
    let inside = choose|inside: bool| #[trigger]
        is_bounded(z, inside) && leads_to(z, c, count, max_iterations, inside, outcome);
    if let Progress::Step(counted) = spec_observe(count, inside, max_iterations) {
        let next = choose|next: Point<S>| #[trigger]
            is_step(z, c, next) && can_end(next, c, counted, max_iterations, outcome);
        escape_count_below_cutoff(next, c, counted, max_iterations, outcome);
    }
}

/// A point that the radius test finds outside escapes at once: no step is
/// counted, whatever the cutoff.
pub proof fn outside_start_escapes_at_once<S: Scalar>(
    c: Point<S>,
    max_iterations: usize,
    outcome: Outcome,
)
    requires
        forall|inside: bool| #[trigger] is_bounded(c, inside) ==> !inside,
        is_escape_time(c, max_iterations, outcome),
    ensures
        outcome == Outcome::Escaped(0),
{
}

/// An iterate that the radius test finds inside and that is followed by
/// itself never escapes: the orbit ends in the set, whatever the cutoff.
pub proof fn bounded_fixed_point_is_in_set<S: Scalar>(
    z: Point<S>,
    c: Point<S>,
    count: usize,
    max_iterations: usize,
    outcome: Outcome,
)
    requires
        forall|inside: bool| #[trigger] is_bounded(z, inside) ==> inside,
        forall|next: Point<S>| #[trigger] is_step(z, c, next) ==> next == z,
        can_end(z, c, count, max_iterations, outcome),
    ensures
        outcome == Outcome::InSet,
    decreases max_iterations - count,
{
    let inside = choose|inside: bool| #[trigger]
        is_bounded(z, inside) && leads_to(z, c, count, max_iterations, inside, outcome);
    if let Progress::Step(counted) = spec_observe(count, inside, max_iterations) {
        bounded_fixed_point_is_in_set(z, c, counted, max_iterations, outcome);
    }
}

} // verus!
