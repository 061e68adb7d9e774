//! The display buffer and the cells a frame writes into it.

use crate::palette::{black, palette_colour};
use terminal_graphics::Colour;
use terminal_graphics::Display;
use vstd::prelude::*;

verus! {

/// The display buffer of the `terminal_graphics` crate: a grid of cells.
#[verifier::external_type_specification]
#[verifier::external_body]
pub struct ExDisplay(terminal_graphics::Display);

/// What one cell of a display shows.
pub struct Cell {
    /// The character in the cell.
    pub character: char,
    /// The colour of the character.
    pub colour: Colour,
    /// The colour behind the character.
    pub background: Colour,
}

/// Names what a display holds: for each position `(x, y)` inside it, the
/// character and the two colours of the cell there. Positions outside the
/// display are not in the map.
pub uninterp spec fn display_cells(display: Display) -> Map<(int, int), Cell>;

/// `Display::set_pixel` overwrites the cell at `(x, y)` with the character
/// and colours given, and does nothing where `(x, y)` is outside the display.
pub assume_specification[ terminal_graphics::Display::set_pixel ](
    display: &mut Display,
    x: isize,
    y: isize,
    character: char,
    colour: Colour,
    background: Colour,
)
    ensures
        display_cells(*final(display)) == (if display_cells(*old(display)).dom().contains(
            (x as int, y as int),
        ) {
            display_cells(*old(display)).insert(
                (x as int, y as int),
                Cell { character, colour, background },
            )
        } else {
            display_cells(*old(display))
        }),
;

/// A blank cell: a space in the palette's first colour, black, on its
/// eighth, white.
pub open spec fn blank() -> Cell {
    Cell { character: ' ', colour: palette_colour(0), background: palette_colour(7) }
}

/// `Display::clear` resets every cell of the display to a black space on a
/// white background, and leaves the display's size alone.
pub assume_specification[ terminal_graphics::Display::clear ](display: &mut Display)
    ensures
        display_cells(*final(display)).dom() == display_cells(*old(display)).dom(),
        forall|x: int, y: int| #[trigger]
            display_cells(*old(display)).dom().contains((x, y)) ==> display_cells(
                *final(display),
            )[(x, y)] == blank(),
;

/// The character that fills a painted cell.
pub const BLOCK: char = '\u{2588}';

/// A painted cell: a full block in `colour` on the palette's first colour.
pub open spec fn painted(colour: Colour) -> Cell {
    Cell { character: BLOCK, colour, background: palette_colour(0) }
}

/// The cells of a display after the cell at `(x, y)` was painted in `colour`.
pub open spec fn cells_after_paint(
    cells: Map<(int, int), Cell>,
    x: int,
    y: int,
    colour: Colour,
) -> Map<(int, int), Cell> {
    if cells.dom().contains((x, y)) {
        cells.insert((x, y), painted(colour))
    } else {
        cells
    }
}

/// Paints one cell: a full block in `colour` on black. A position outside
/// the display is left out.
pub fn paint(display: &mut Display, x: u16, y: u16, colour: Colour)
    ensures
        display_cells(*final(display)) == cells_after_paint(
            display_cells(*old(display)),
            x as int,
            y as int,
            colour,
        ),
{
    display.set_pixel(x as isize, y as isize, BLOCK, colour, black());
}

} // verus!
