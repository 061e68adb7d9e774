//! Colour bands: how an escape count becomes one of the terminal's colours.

use crate::orbit::{is_bounded, is_escape_time, outside_start_escapes_at_once, Outcome, Point};
use crate::scalar::Scalar;
use terminal_graphics::Colour;
use vstd::prelude::*;

verus! {

/// A terminal colour of the `terminal_graphics` crate. A value is opaque
/// here: all that is known of one is which palette entry it equals.
#[verifier::external_type_specification]
#[verifier::external_body]
pub struct ExColour(terminal_graphics::Colour);

/// Names the colour that `Colour::variants()` holds at position `band`.
pub uninterp spec fn palette_colour(band: int) -> Colour;

/// `Colour::variants()` returns the palette as an array of sixteen colours;
/// the entry at each position is the one that `palette_colour` names.
pub assume_specification[ terminal_graphics::Colour::variants ]() -> (palette: [Colour; 16])
    ensures
        forall|band: int| 0 <= band < 16 ==> #[trigger] palette@[band] == palette_colour(band),
;

/// The number of bands: band 0 for points in the set, the others for
/// points that escape.
pub const BAND_COUNT: usize = 16;

/// The band of an orbit that escaped after `count` steps under a cutoff of
/// `max_iterations`, among `band_count` bands of which band 0 is reserved:
/// one more than the count scaled down to the escape bands, and at most the
/// last band.
pub open spec fn spec_band_index(count: nat, max_iterations: nat, band_count: nat) -> nat {
    let last: nat = (band_count - 1) as nat;
    let raw: nat = 1 + (count * last) / max_iterations;
    if raw > last {
        last
    } else {
        raw
    }
}

/// The band of an outcome: band 0 for an orbit in the set, an escape band
/// otherwise.
pub open spec fn spec_band_of(outcome: Outcome, max_iterations: nat, band_count: nat) -> nat {
    match outcome {
        Outcome::InSet => 0,
        Outcome::Escaped(count) => spec_band_index(count as nat, max_iterations, band_count),
    }
}

/// The colour of an outcome.
pub open spec fn spec_colour_of(outcome: Outcome, max_iterations: nat) -> Colour {
    palette_colour(spec_band_of(outcome, max_iterations, BAND_COUNT as nat) as int)
}

/// Black: the palette's first colour, which fills the set and lies behind
/// every painted cell.
pub fn black() -> (colour: Colour)
    ensures
        colour == palette_colour(0),
{
    let palette = Colour::variants();
    palette[0]
}

/// Quantizes an escape count to an escape band.
pub fn band_index(count: usize, max_iterations: usize, band_count: usize) -> (band: usize)
    requires
        max_iterations >= 1,
        band_count >= 2,
    ensures
        band == spec_band_index(count as nat, max_iterations as nat, band_count as nat),
        1 <= band <= band_count - 1,
{
    let last: usize = band_count - 1;
    assert(count * last <= u128::MAX) by (nonlinear_arith)
        requires
            count <= 0xffff_ffff_ffff_ffff,
            last <= 0xffff_ffff_ffff_ffff,
    ;
    let scaled: u128 = (count as u128) * (last as u128) / (max_iterations as u128);
    if scaled >= last as u128 {
        last
    } else {
        1 + scaled as usize
    }
}

/// The band of an outcome among `band_count` bands.
pub fn band_of(outcome: Outcome, max_iterations: usize, band_count: usize) -> (band: usize)
    requires
        max_iterations >= 1,
        band_count >= 2,
    ensures
        band == spec_band_of(outcome, max_iterations as nat, band_count as nat),
        outcome is InSet ==> band == 0,
        outcome is Escaped ==> 1 <= band <= band_count - 1,
{
    match outcome {
        Outcome::InSet => 0,
        Outcome::Escaped(count) => band_index(count, max_iterations, band_count),
    }
}

/// The colour in which a point with the given outcome is drawn.
pub fn colour_of(outcome: Outcome, max_iterations: usize) -> (colour: Colour)
    requires
        max_iterations >= 1,
    ensures
        colour == spec_colour_of(outcome, max_iterations as nat),
{
    let palette = Colour::variants();
    let band: usize = band_of(outcome, max_iterations, palette.len());
    palette[band]
}

/// A point that the radius test finds outside has no step counted and lies
/// in the first escape band, whatever the cutoff.
pub proof fn outside_start_is_first_band<S: Scalar>(
    c: Point<S>,
    max_iterations: usize,
    band_count: nat,
    outcome: Outcome,
)
    requires
        band_count >= 2,
        forall|inside: bool| #[trigger] is_bounded(c, inside) ==> !inside,
        is_escape_time(c, max_iterations, outcome),
    ensures
        outcome == Outcome::Escaped(0),
        spec_band_of(outcome, max_iterations as nat, band_count) == 1,
{
    outside_start_escapes_at_once(c, max_iterations, outcome);
}

/// Where the cutoff exceeds the number of escape bands, a point that the
/// radius test finds outside lies in the band of an escape after one step:
/// one step or none makes no difference to the colour there.
pub proof fn outside_start_has_band_of_one_step<S: Scalar>(
    c: Point<S>,
    max_iterations: usize,
    band_count: nat,
    outcome: Outcome,
)
    requires
        band_count >= 2,
        band_count - 1 < max_iterations,
        forall|inside: bool| #[trigger] is_bounded(c, inside) ==> !inside,
        is_escape_time(c, max_iterations, outcome),
    ensures
        spec_band_of(outcome, max_iterations as nat, band_count) == spec_band_index(
            1,
            max_iterations as nat,
            band_count,
        ),
{
    outside_start_is_first_band(c, max_iterations, band_count, outcome);
    let last: nat = (band_count - 1) as nat;
    assert((last as int) / (max_iterations as int) == 0) by (nonlinear_arith)
        requires
            0 <= last < max_iterations,
    ;
}

/// The band of every outcome is a band of the palette: band 0 for an orbit
/// in the set and for no other, an escape band from 1 up to the last for
/// one that escaped.
pub proof fn band_is_within_palette(outcome: Outcome, max_iterations: nat, band_count: nat)
    requires
        max_iterations >= 1,
        band_count >= 2,
    ensures
        outcome is InSet ==> spec_band_of(outcome, max_iterations, band_count) == 0,
        outcome is Escaped ==> 1 <= spec_band_of(outcome, max_iterations, band_count)
            <= band_count - 1,
{
}

} // verus!
