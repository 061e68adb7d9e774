//! The fractal: how a point is coloured, how a frame is drawn, what a key
//! changes.

use crate::depth::{doubled, halved, spec_doubled, spec_halved, INITIAL_ITERATIONS};
use crate::keys::{command_for, spec_command_for, Command, Motion};
use crate::orbit::{
    bounded_fixed_point_is_in_set, escape_time, is_bounded, is_escape_time, is_step, Outcome,
    Point,
};
use crate::palette::{
    band_is_within_palette, colour_of, outside_start_is_first_band, palette_colour, spec_band_of,
    spec_colour_of, BAND_COUNT,
};
use crate::scalar::{is_difference, is_product, is_sum, is_whole, number, product, Scalar};
use crate::screen::{display_cells, paint, BLOCK};
use crate::view::{
    above_zero, along, back, factor, forth, fraction, initial_origin, initial_span,
    is_above_zero, is_along, is_back, is_factor, is_forth, is_fraction, is_initial_origin,
    is_initial_span, is_negative, is_positive, is_recentred, negative, recentred,
};
use terminal_graphics::Colour;
use terminal_graphics::Display;
use vstd::prelude::*;

verus! {

/// Whether `(u, v)` is the point of the unit square that cell `(x, y)` of
/// a grid of `width` by `height` cells shows:
/// `(x / (width - 1), y / (height - 1))`.
pub open spec fn is_cell_point<S: Scalar>(
    x: u16,
    y: u16,
    width: u16,
    height: u16,
    u: S,
    v: S,
) -> bool {
    &&& is_fraction(x, (width - 1) as u16, u)
    &&& is_fraction(y, (height - 1) as u16, v)
}

/// A picture that can colour each point of the unit square and answers to
/// keys.
pub trait Chaos {
    /// The numbers in which the picture reckons.
    type Number: Scalar;

    /// Whether the picture is in a state it can be drawn in. A picture that
    /// says nothing else is always valid.
    open spec fn valid(&self) -> bool {
        true
    }

    /// Whether `colour` is one that the picture may give to the point
    /// `(u, v)` of the unit square.
    open spec fn may_show(&self, u: Self::Number, v: Self::Number, colour: Colour) -> bool {
        true
    }

    /// Whether the key `ch` may turn this picture into `next`.
    open spec fn may_become(&self, ch: char, next: &Self) -> bool {
        true
    }

    /// The colour of the point `(u, v)` of the unit square, `(0, 0)` being
    /// the top left corner of the picture and `(1, 1)` the bottom right.
    fn compute(&self, u: Self::Number, v: Self::Number) -> (colour: Colour)
        requires
            self.valid(),
        ensures
            self.may_show(u, v, colour),
    ;

    /// Changes the picture as the key asks.
    fn on_key(&mut self, ch: char)
        requires
            old(self).valid(),
        ensures
            final(self).valid(),
            old(self).may_become(ch, final(self)),
    ;

    /// Paints the whole grid into `display`, each cell once: every cell of
    /// the display inside the grid becomes a full block on black in a colour
    /// that the picture may give to the point the cell shows, and every
    /// other cell stays as it was.
    fn draw(&self, display: &mut Display, width: u16, height: u16)
        requires
            self.valid(),
            width >= 2,
            height >= 2,
        ensures
            display_cells(*final(display)).dom() == display_cells(*old(display)).dom(),
            forall|x: int, y: int| #[trigger]
                display_cells(*old(display)).dom().contains((x, y)) ==> {
                    let cell = display_cells(*final(display))[(x, y)];
                    if 0 <= x < width && 0 <= y < height {
                        &&& cell.character == BLOCK
                        &&& cell.background == palette_colour(0)
                        &&& exists|across: Self::Number, down: Self::Number| #[trigger]
                            is_cell_point(x as u16, y as u16, width, height, across, down)
                                && self.may_show(across, down, cell.colour)
                    } else {
                        cell == display_cells(*old(display))[(x, y)]
                    }
                },
    {
        let mut y: u16 = 0;
        while y < height
            invariant
                self.valid(),
                width >= 2,
                height >= 2,
                y <= height,
                display_cells(*display).dom() == display_cells(*old(display)).dom(),
                forall|i: int, j: int| #[trigger]
                    display_cells(*old(display)).dom().contains((i, j)) ==> {
                        let cell = display_cells(*display)[(i, j)];
                        if 0 <= i < width && 0 <= j < y {
                            &&& cell.character == BLOCK
                            &&& cell.background == palette_colour(0)
                            &&& exists|across: Self::Number, down: Self::Number| #[trigger]
                                is_cell_point(i as u16, j as u16, width, height, across, down)
                                    && self.may_show(across, down, cell.colour)
                        } else {
                            cell == display_cells(*old(display))[(i, j)]
                        }
                    },
            decreases height - y,
        {
            let v: Self::Number = fraction(y, height - 1);
            let mut x: u16 = 0;
            while x < width
                invariant
                    self.valid(),
                    width >= 2,
                    height >= 2,
                    y < height,
                    x <= width,
                    is_fraction(y, (height - 1) as u16, v),
                    display_cells(*display).dom() == display_cells(*old(display)).dom(),
                    forall|i: int, j: int| #[trigger]
                        display_cells(*old(display)).dom().contains((i, j)) ==> {
                            let cell = display_cells(*display)[(i, j)];
                            if 0 <= i < width && (0 <= j < y || (j == y && i < x)) {
                                &&& cell.character == BLOCK
                                &&& cell.background == palette_colour(0)
                                &&& exists|across: Self::Number, down: Self::Number| #[trigger]
                                is_cell_point(i as u16, j as u16, width, height, across, down)
                                    && self.may_show(across, down, cell.colour)
                            } else {
                                cell == display_cells(*old(display))[(i, j)]
                            }
                        },
                decreases width - x,
            {
                let u: Self::Number = fraction(x, width - 1);
                let colour = self.compute(u, v);
                assert(is_cell_point(x, y, width, height, u, v));
                paint(display, x, y, colour);
                assert(x as int as u16 == x && y as int as u16 == y);
                x += 1;
            }
            y += 1;
        }
    }
}

/// The Mandelbrot set seen through a view rectangle: the rectangle's origin
/// is its top left corner, its spans are its width and height, and each
/// pan or zoom moves it by the step fraction of its span. In a valid
/// fractal both spans are above zero and the cutoff is at least one.
pub struct Mandelbrot<S: Scalar> {
    /// The real part of the origin.
    pub origin_x: S,
    /// The width of the rectangle.
    pub span_x: S,
    /// The imaginary part of the origin.
    pub origin_y: S,
    /// The height of the rectangle.
    pub span_y: S,
    /// The iteration cutoff.
    pub max_iterations: usize,
    /// The fraction of a span that one pan or zoom moves.
    pub step_fraction: S,
}

/// The cutoff after a key: halved by `z`, doubled by `x`, else unchanged.
pub open spec fn iterations_after(max_iterations: usize, ch: char) -> nat {
    match spec_command_for(ch) {
        Command::HalveIterations => spec_halved(max_iterations as nat),
        Command::DoubleIterations => spec_doubled(max_iterations as nat),
        _ => max_iterations as nat,
    }
}

impl<S: Scalar> Mandelbrot<S> {
    /// Whether `fractal` is the one a session starts with on a grid of
    /// `width` by `height` cells: the view is centred on minus one half,
    /// two high from minus one, as wide as the grid's shape asks; the cutoff
    /// is the initial one; a step is a tenth.
    pub open spec fn is_initial(width: u16, height: u16, fractal: Self) -> bool {
        &&& is_initial_span(width, height, fractal.span_x)
        &&& is_initial_origin(fractal.span_x, fractal.origin_x)
        &&& is_negative(1, fractal.origin_y)
        &&& is_whole(2, fractal.span_y)
        &&& fractal.max_iterations == INITIAL_ITERATIONS
        &&& is_fraction(1, 10, fractal.step_fraction)
    }

    /// Whether `c` is the point that `(u, v)` of the unit square shows:
    /// `(origin_x + u * span_x, origin_y + v * span_y)`.
    pub open spec fn is_located(self, u: S, v: S, c: Point<S>) -> bool {
        &&& is_along(self.origin_x, self.span_x, u, c.x)
        &&& is_along(self.origin_y, self.span_y, v, c.y)
    }

    /// Whether a zoom by `amount` may turn this fractal into `next`: both
    /// spans are multiplied by `amount`; where both products are above zero,
    /// they become the spans and the origin is recentred; where not, nothing
    /// changes.
    pub open spec fn is_zoomed(self, amount: S, next: Self) -> bool {
        &&& next.max_iterations == self.max_iterations
        &&& next.step_fraction == self.step_fraction
        &&& exists|grown_x: S, grown_y: S, wide: bool, high: bool|
            {
                &&& #[trigger] is_product(self.span_x, amount, grown_x)
                &&& #[trigger] is_product(self.span_y, amount, grown_y)
                &&& #[trigger] is_above_zero(grown_x, wide)
                &&& #[trigger] is_above_zero(grown_y, high)
                &&& if wide && high {
                    &&& next.span_x == grown_x
                    &&& next.span_y == grown_y
                    &&& is_recentred(self.origin_x, self.span_x, grown_x, next.origin_x)
                    &&& is_recentred(self.origin_y, self.span_y, grown_y, next.origin_y)
                } else {
                    &&& next.span_x == self.span_x
                    &&& next.span_y == self.span_y
                    &&& next.origin_x == self.origin_x
                    &&& next.origin_y == self.origin_y
                }
            }
    }

    /// Whether a motion may turn this fractal into `next`: a pan moves one
    /// origin by the step fraction of its span and leaves the rest; a zoom
    /// out is a zoom by `1 + step_fraction`, a zoom in one by
    /// `1 - step_fraction`.
    pub open spec fn is_shifted(self, motion: Motion, next: Self) -> bool {
        match motion {
            Motion::PanLeft => exists|moved: S| #[trigger]
                is_back(self.origin_x, self.step_fraction, self.span_x, moved) && next
                    == (Mandelbrot { origin_x: moved, ..self }),
            Motion::PanRight => exists|moved: S| #[trigger]
                is_forth(self.origin_x, self.step_fraction, self.span_x, moved) && next
                    == (Mandelbrot { origin_x: moved, ..self }),
            Motion::PanUp => exists|moved: S| #[trigger]
                is_back(self.origin_y, self.step_fraction, self.span_y, moved) && next
                    == (Mandelbrot { origin_y: moved, ..self }),
            Motion::PanDown => exists|moved: S| #[trigger]
                is_forth(self.origin_y, self.step_fraction, self.span_y, moved) && next
                    == (Mandelbrot { origin_y: moved, ..self }),
            Motion::ZoomOut => exists|factor: S| #[trigger]
                is_factor(self.step_fraction, true, factor) && self.is_zoomed(factor, next),
            Motion::ZoomIn => exists|factor: S| #[trigger]
                is_factor(self.step_fraction, false, factor) && self.is_zoomed(factor, next),
        }
    }

    /// The fractal a session starts with on a grid of `width` by `height`
    /// cells: the initial view and cutoff, or nothing where the number type
    /// does not find both spans of that view above zero.
    pub fn new(width: u16, height: u16) -> (started: Option<Self>)
        ensures
            match started {
                Some(fractal) => Self::is_initial(width, height, fractal) && fractal.valid(),
                None => exists|fractal: Self, wide: bool, high: bool|
                    {
                        &&& #[trigger] Self::is_initial(width, height, fractal)
                        &&& #[trigger] is_above_zero(fractal.span_x, wide)
                        &&& #[trigger] is_above_zero(fractal.span_y, high)
                        &&& !(wide && high)
                    },
            },
    {
        let span_x: S = initial_span(width, height);
        let fractal = Mandelbrot {
            origin_x: initial_origin(span_x),
            span_x,
            origin_y: negative(1),
            span_y: number(2),
            max_iterations: INITIAL_ITERATIONS,
            step_fraction: fraction(1, 10),
        };
        let wide = above_zero(fractal.span_x);
        let high = above_zero(fractal.span_y);
        assert(Self::is_initial(width, height, fractal));
        if wide && high {
            Some(fractal)
        } else {
            None
        }
    }

    /// The point that `(u, v)` of the unit square shows.
    pub fn locate(&self, u: S, v: S) -> (c: Point<S>)
        ensures
            self.is_located(u, v, c),
    {
        Point {
            x: along(self.origin_x, self.span_x, u),
            y: along(self.origin_y, self.span_y, v),
        }
    }

    /// Scales both spans by `amount` about the centre of the view, unless
    /// that would leave a span that is not above zero.
    pub fn zoom(&mut self, amount: S)
        ensures
            old(self).is_zoomed(amount, *final(self)),
    {
        let grown_x = product(self.span_x, amount);
        let grown_y = product(self.span_y, amount);
        let wide = above_zero(grown_x);
        let high = above_zero(grown_y);
        if wide && high {
            self.origin_x = recentred(self.origin_x, self.span_x, grown_x);
            self.origin_y = recentred(self.origin_y, self.span_y, grown_y);
            self.span_x = grown_x;
            self.span_y = grown_y;
        }
    }
}

impl<S: Scalar> Chaos for Mandelbrot<S> {
    type Number = S;

    /// A fractal is valid while its cutoff is at least one and the number
    /// type finds both spans above zero.
    open spec fn valid(&self) -> bool {
        &&& self.max_iterations >= 1
        &&& is_positive(self.span_x)
        &&& is_positive(self.span_y)
    }

    /// The colours of the outcomes in which the orbit of the point shown can
    /// end.
    open spec fn may_show(&self, u: S, v: S, colour: Colour) -> bool {
        exists|c: Point<S>, outcome: Outcome|
            {
                &&& #[trigger] self.is_located(u, v, c)
                &&& #[trigger] is_escape_time(c, self.max_iterations, outcome)
                &&& colour == spec_colour_of(outcome, self.max_iterations as nat)
            }
    }

    /// A motion key shifts the view and leaves the cutoff; `z` and `x` halve
    /// and double the cutoff and leave the view; any other key changes
    /// nothing.
    open spec fn may_become(&self, ch: char, next: &Self) -> bool {
        match spec_command_for(ch) {
            Command::Move(motion) => self.is_shifted(motion, *next),
            _ => *next == (Mandelbrot {
                max_iterations: iterations_after(self.max_iterations, ch) as usize,
                ..*self
            }),
        }
    }

    /// Follows the orbit of the point shown and colours it by how it ended.
    fn compute(&self, u: S, v: S) -> (colour: Colour) {
        let c = self.locate(u, v);
        let outcome = escape_time(&c, self.max_iterations);
        colour_of(outcome, self.max_iterations)
    }

    /// Answers a key.
    fn on_key(&mut self, ch: char) {
        match command_for(ch) {
            Command::Move(Motion::PanLeft) => {
                self.origin_x = back(self.origin_x, self.step_fraction, self.span_x);
            },
            Command::Move(Motion::PanRight) => {
                self.origin_x = forth(self.origin_x, self.step_fraction, self.span_x);
            },
            Command::Move(Motion::PanUp) => {
                self.origin_y = back(self.origin_y, self.step_fraction, self.span_y);
            },
            Command::Move(Motion::PanDown) => {
                self.origin_y = forth(self.origin_y, self.step_fraction, self.span_y);
            },
            Command::Move(Motion::ZoomOut) => {
                self.zoom(factor(self.step_fraction, true));
            },
            Command::Move(Motion::ZoomIn) => {
                self.zoom(factor(self.step_fraction, false));
            },
            Command::HalveIterations => {
                self.max_iterations = halved(self.max_iterations);
            },
            Command::DoubleIterations => {
                self.max_iterations = doubled(self.max_iterations);
            },
            Command::Ignore => (),
        }
    }
}

/// Every colour that a point can get is a colour of the palette.
pub proof fn point_colour_is_in_palette<S: Scalar>(
    fractal: Mandelbrot<S>,
    u: S,
    v: S,
    colour: Colour,
)
    requires
        fractal.valid(),
        fractal.may_show(u, v, colour),
    ensures
        exists|band: int| 0 <= band < BAND_COUNT && colour == #[trigger] palette_colour(band),
{
    let (c, outcome) = choose|c: Point<S>, outcome: Outcome|
        {
            &&& #[trigger] fractal.is_located(u, v, c)
            &&& #[trigger] is_escape_time(c, fractal.max_iterations, outcome)
            &&& colour == spec_colour_of(outcome, fractal.max_iterations as nat)
        };
    band_is_within_palette(outcome, fractal.max_iterations as nat, BAND_COUNT as nat);
    let band: int = spec_band_of(outcome, fractal.max_iterations as nat, BAND_COUNT as nat) as int;
    assert(colour == palette_colour(band));
}

/// A point that the radius test finds outside is drawn in the first escape
/// colour, whatever the cutoff.
pub proof fn outside_point_is_first_colour<S: Scalar>(
    fractal: Mandelbrot<S>,
    u: S,
    v: S,
    colour: Colour,
)
    requires
        forall|c: Point<S>, inside: bool|
            #[trigger] fractal.is_located(u, v, c) && #[trigger] is_bounded(c, inside) ==> !inside,
        fractal.may_show(u, v, colour),
    ensures
        colour == palette_colour(1),
{
    let (c, outcome) = choose|c: Point<S>, outcome: Outcome|
        {
            &&& #[trigger] fractal.is_located(u, v, c)
            &&& #[trigger] is_escape_time(c, fractal.max_iterations, outcome)
            &&& colour == spec_colour_of(outcome, fractal.max_iterations as nat)
        };
    outside_start_is_first_band(c, fractal.max_iterations, BAND_COUNT as nat, outcome);
}

/// A point that the radius test finds inside and that is followed by itself
/// is drawn in black, the colour of the set, whatever the cutoff.
pub proof fn fixed_point_is_black<S: Scalar>(fractal: Mandelbrot<S>, u: S, v: S, colour: Colour)
    requires
        forall|c: Point<S>, inside: bool|
            #[trigger] fractal.is_located(u, v, c) && #[trigger] is_bounded(c, inside) ==> inside,
        forall|c: Point<S>, next: Point<S>|
            #[trigger] fractal.is_located(u, v, c) && #[trigger] is_step(c, c, next) ==> next == c,
        fractal.may_show(u, v, colour),
    ensures
        colour == palette_colour(0),
{
    let (c, outcome) = choose|c: Point<S>, outcome: Outcome|
        {
            &&& #[trigger] fractal.is_located(u, v, c)
            &&& #[trigger] is_escape_time(c, fractal.max_iterations, outcome)
            &&& colour == spec_colour_of(outcome, fractal.max_iterations as nat)
        };
    bounded_fixed_point_is_in_set(c, c, 0, fractal.max_iterations, outcome);
}

/// Whether the number type lets a zero fraction vanish: `0 / n * a + b` is
/// `b` again, for every whole `n` from one up.
pub open spec fn zero_fraction_vanishes<S: Scalar>() -> bool {
    forall|n: u16, u: S, a: S, p: S, b: S, s: S|
        n >= 1 && #[trigger] is_fraction(0, n, u) && #[trigger] is_product(u, a, p)
            && #[trigger] is_sum(b, p, s) ==> s == b
}

/// Whether the number type makes a whole fraction a unit: `n / n * a` is `a`
/// again, for every whole `n` from one up.
pub open spec fn whole_fraction_is_unit<S: Scalar>() -> bool {
    forall|n: u16, u: S, a: S, p: S|
        n >= 1 && #[trigger] is_fraction(n, n, u) && #[trigger] is_product(u, a, p) ==> p == a
}

/// In a number type that lets a zero fraction vanish, the first cell of a
/// grid shows the origin of the view itself.
pub proof fn first_cell_shows_origin<S: Scalar>(
    fractal: Mandelbrot<S>,
    width: u16,
    height: u16,
    u: S,
    v: S,
    c: Point<S>,
)
    requires
        width >= 2,
        height >= 2,
        zero_fraction_vanishes::<S>(),
        is_cell_point(0, 0, width, height, u, v),
        fractal.is_located(u, v, c),
    ensures
        c.x == fractal.origin_x,
        c.y == fractal.origin_y,
{
}

/// In a number type that makes a whole fraction a unit, the last cell of a
/// grid shows the corner opposite the origin: origin plus span on each
/// axis.
pub proof fn last_cell_shows_far_corner<S: Scalar>(
    fractal: Mandelbrot<S>,
    width: u16,
    height: u16,
    u: S,
    v: S,
    c: Point<S>,
)
    requires
        width >= 2,
        height >= 2,
        whole_fraction_is_unit::<S>(),
        is_cell_point((width - 1) as u16, (height - 1) as u16, width, height, u, v),
        fractal.is_located(u, v, c),
    ensures
        is_sum(fractal.origin_x, fractal.span_x, c.x),
        is_sum(fractal.origin_y, fractal.span_y, c.y),
{
}

/// Where taking a stride from the origin and adding a stride again gives the
/// origin exactly, a pan to the left followed by one to the right restores
/// the fractal; not every number type is so exact on every origin.
pub proof fn pan_left_then_right_restores<S: Scalar>(
    start: Mandelbrot<S>,
    left: Mandelbrot<S>,
    end: Mandelbrot<S>,
)
    requires
        start.is_shifted(Motion::PanLeft, left),
        left.is_shifted(Motion::PanRight, end),
        forall|there: S, stride: S, moved: S, again: S|
            {
                &&& #[trigger] is_product(start.step_fraction, start.span_x, there)
                &&& #[trigger] is_difference(start.origin_x, there, moved)
                &&& #[trigger] is_product(start.step_fraction, start.span_x, stride)
                &&& #[trigger] is_sum(moved, stride, again)
            } ==> again == start.origin_x,
    ensures
        end == start,
{
}

} // verus!
