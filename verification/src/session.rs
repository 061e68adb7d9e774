//! One turn of a session: render a frame, then react to what the keyboard
//! reported.

use crate::fractal::{is_cell_point, Chaos};
use crate::palette::palette_colour;
use crate::screen::{blank, display_cells, BLOCK};
use terminal_graphics::Display;
use vstd::prelude::*;

verus! {

/// One thing the keyboard reported.
#[derive(Clone, Copy, Debug, PartialEq, Eq, Structural)]
pub enum Event {
    /// The escape key.
    Escape,
    /// The keyboard could not be read.
    Failed,
    /// A character key.
    Char(char),
    /// Any other key, or none.
    Other,
}

/// How the session goes on after an event.
#[derive(Clone, Copy, Debug, PartialEq, Eq, Structural)]
pub enum Flow {
    /// Draw the next frame and wait for the next event.
    Redraw,
    /// Leave the session.
    Quit,
}

/// Whether an event ends the session: the escape key does, and so does a
/// keyboard that cannot be read.
pub open spec fn ends_session(event: Event) -> bool {
    event is Escape || event is Failed
}

/// Renders one frame: clears the display, then paints the grid into it.
/// Every cell of the display inside the grid ends as a full block on black
/// in a colour that the picture may give to the point the cell shows; every
/// other cell ends blank.
pub fn render<C: Chaos>(chaos: &C, display: &mut Display, width: u16, height: u16)
    requires
        chaos.valid(),
        width >= 2,
        height >= 2,
    ensures
        display_cells(*final(display)).dom() == display_cells(*old(display)).dom(),
        forall|x: int, y: int| #[trigger]
            display_cells(*old(display)).dom().contains((x, y)) ==> {
                let cell = display_cells(*final(display))[(x, y)];
                if 0 <= x < width && 0 <= y < height {
                    &&& cell.character == BLOCK
                    &&& cell.background == palette_colour(0)
                    &&& exists|across: C::Number, down: C::Number| #[trigger]
                        is_cell_point(x as u16, y as u16, width, height, across, down)
                            && chaos.may_show(across, down, cell.colour)
                } else {
                    cell == blank()
                }
            },
{
    display.clear();
    chaos.draw(display, width, height);
}

/// Handles one keyboard event: an event that ends the session is answered
/// with `Quit` and leaves the picture alone; a character key is handed to
/// the picture; anything else changes nothing.
pub fn react<C: Chaos>(chaos: &mut C, event: Event) -> (flow: Flow)
    requires
        old(chaos).valid(),
    ensures
        final(chaos).valid(),
        flow == (if ends_session(event) {
            Flow::Quit
        } else {
            Flow::Redraw
        }),
        match event {
            Event::Char(ch) => old(chaos).may_become(ch, final(chaos)),
            _ => *final(chaos) == *old(chaos),
        },
{
    match event {
        Event::Escape => Flow::Quit,
        Event::Failed => Flow::Quit,
        Event::Char(ch) => {
            chaos.on_key(ch);
            Flow::Redraw
        },
        Event::Other => Flow::Redraw,
    }
}

} // verus!
