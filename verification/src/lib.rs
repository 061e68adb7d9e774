//! An explorable Mandelbrot set for a character-cell terminal.
//!
//! The library holds the whole picture but its arithmetic: the view
//! rectangle and its formulas ([`view`]), the escape-time rule ([`orbit`]),
//! the colour bands ([`palette`]), the cells of a frame ([`screen`]), the
//! keys ([`keys`], [`depth`]), the fractal itself ([`fractal`]) and one turn
//! of a session ([`session`]). The numbers of the plane are the caller's: a
//! [`scalar::Scalar`] makes whole numbers, adds, subtracts, multiplies,
//! divides and compares, and the library says of each result which
//! operations it came from.

pub mod depth;
pub mod fractal;
pub mod keys;
pub mod orbit;
pub mod palette;
pub mod scalar;
pub mod screen;
pub mod session;
pub mod view;
