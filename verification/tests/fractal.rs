use mandelbrot_term::fractal::{Chaos, Mandelbrot};
use mandelbrot_term::scalar::Scalar;
use mandelbrot_term::session::{react, render, Event, Flow};
use mandelbrot_term::view::{
    along, back, factor, forth, fraction, initial_origin, initial_span, negative, recentred,
};
use terminal_graphics::display::pixel::Pixel;
use terminal_graphics::{Colour, Display};

/// Single-precision numbers.
#[derive(Clone, Copy, Debug, PartialEq)]
struct Single(f32);

impl Scalar for Single {
    fn whole(n: u16) -> Single {
        Single(f32::from(n))
    }

    fn plus(self, other: Single) -> Single {
        Single(self.0 + other.0)
    }

    fn minus(self, other: Single) -> Single {
        Single(self.0 - other.0)
    }

    fn times(self, other: Single) -> Single {
        Single(self.0 * other.0)
    }

    fn over(self, other: Single) -> Single {
        Single(self.0 / other.0)
    }

    fn below(self, other: Single) -> bool {
        self.0 < other.0
    }
}

/// A picture of vertical stripes that a key swaps.
struct Stripes {
    swapped: bool,
}

impl Chaos for Stripes {
    type Number = Single;

    fn compute(&self, u: Single, _v: Single) -> Colour {
        if (u.0 < 0.5) != self.swapped {
            Colour::Yellow
        } else {
            Colour::Blue
        }
    }

    fn on_key(&mut self, _ch: char) {
        self.swapped = !self.swapped;
    }
}

fn view(fractal: &Mandelbrot<Single>) -> (f32, f32, f32, f32) {
    (fractal.origin_x.0, fractal.span_x.0, fractal.origin_y.0, fractal.span_y.0)
}

/// A view with round numbers: three wide from minus two, two high from
/// minus one, a step of a quarter.
fn square() -> Mandelbrot<Single> {
    Mandelbrot {
        origin_x: Single(-2.0),
        span_x: Single(3.0),
        origin_y: Single(-1.0),
        span_y: Single(2.0),
        max_iterations: 50,
        step_fraction: Single(0.25),
    }
}

/// The fractal a session starts with on a grid of this size.
fn first(width: u16, height: u16) -> Mandelbrot<Single> {
    Mandelbrot::new(width, height).unwrap()
}

fn keys(fractal: &mut Mandelbrot<Single>, typed: &str) {
    for ch in typed.chars() {
        fractal.on_key(ch);
    }
}

fn cell(display: &mut Display, x: isize, y: isize) -> Pixel {
    display.pixel_mut(x, y).unwrap().clone()
}

fn colour_at(fractal: &Mandelbrot<Single>, x: u16, y: u16, width: u16, height: u16) -> Colour {
    fractal.compute(fraction(x, width - 1), fraction(y, height - 1))
}

#[test]
fn formulas_of_the_view() {
    assert_eq!(fraction::<Single>(3, 4), Single(0.75));
    assert_eq!(fraction::<Single>(0, 7), Single(0.0));
    assert_eq!(fraction::<Single>(7, 7), Single(1.0));
    assert_eq!(fraction::<Single>(1, 10), Single(0.1));
    assert_eq!(negative::<Single>(1), Single(-1.0));
    assert_eq!(along(Single(-2.0), Single(3.0), Single(0.5)), Single(-0.5));
    assert_eq!(back(Single(-2.0), Single(0.25), Single(3.0)), Single(-2.75));
    assert_eq!(forth(Single(-2.0), Single(0.25), Single(3.0)), Single(-1.25));
    assert_eq!(recentred(Single(-2.0), Single(3.0), Single(3.75)), Single(-2.375));
    assert_eq!(recentred(Single(-2.0), Single(3.0), Single(2.25)), Single(-1.625));
    assert_eq!(factor(Single(0.25), true), Single(1.25));
    assert_eq!(factor(Single(0.25), false), Single(0.75));
    assert_eq!(initial_span::<Single>(8, 4), Single(2.0));
    assert_eq!(initial_origin(Single(2.0)), Single(-1.5));
    assert_eq!(initial_origin(Single(3.0)), Single(-2.0));
}

#[test]
fn a_session_starts_with_the_whole_set_in_view() {
    let fractal = first(8, 4);
    assert_eq!(view(&fractal), (-1.5, 2.0, -1.0, 2.0));
    assert_eq!(fractal.max_iterations, 50);
    assert_eq!(fractal.step_fraction, Single(0.1));
    let fractal = first(80, 24);
    assert_eq!(view(&fractal), (-2.1666665, 3.333333, -1.0, 2.0));
    assert_eq!(fractal.origin_x.0 + 0.5 * fractal.span_x.0, -0.5);
    let fractal = first(2, 2);
    assert_eq!(view(&fractal), (-1.0, 1.0, -1.0, 2.0));
}

#[test]
fn a_grid_without_width_starts_nothing() {
    assert!(Mandelbrot::<Single>::new(0, 4).is_none());
    assert!(Mandelbrot::<Single>::new(0, 0).is_none());
    assert!(Mandelbrot::<Single>::new(1, 1).is_some());
    assert!(Mandelbrot::<Single>::new(u16::MAX, 1).is_some());
    assert!(Mandelbrot::<Single>::new(1, u16::MAX).is_some());
}

#[test]
fn locate_maps_the_unit_square_onto_the_view() {
    let fractal = square();
    let c = fractal.locate(Single(0.0), Single(0.0));
    assert_eq!((c.x, c.y), (Single(-2.0), Single(-1.0)));
    let c = fractal.locate(Single(1.0), Single(1.0));
    assert_eq!((c.x, c.y), (Single(1.0), Single(1.0)));
    let c = fractal.locate(Single(0.5), Single(0.25));
    assert_eq!((c.x, c.y), (Single(-0.5), Single(-0.5)));
}

#[test]
fn corner_cells_show_the_corners_of_the_view() {
    for (width, height) in [(2u16, 2u16), (8, 4), (80, 24), (3, 7), (211, 57)] {
        let fractal = first(width, height);
        let first = fractal.locate(fraction(0, width - 1), fraction(0, height - 1));
        assert_eq!((first.x, first.y), (fractal.origin_x, fractal.origin_y));
        let last = fractal.locate(fraction(width - 1, width - 1), fraction(height - 1, height - 1));
        assert_eq!(last.x.0, fractal.origin_x.0 + fractal.span_x.0);
        assert_eq!(last.y.0, fractal.origin_y.0 + fractal.span_y.0);
    }
}

#[test]
fn point_outside_the_radius_is_in_the_first_band() {
    let fractal = Mandelbrot { origin_x: Single(3.0), origin_y: Single(0.0), ..square() };
    assert_eq!(fractal.compute(Single(0.0), Single(0.0)), Colour::Red);
    assert_eq!(fractal.compute(Single(1.0), Single(1.0)), Colour::Red);
}

#[test]
fn origin_is_black_under_every_cutoff() {
    let mut fractal = Mandelbrot { origin_x: Single(0.0), origin_y: Single(0.0), ..square() };
    for _ in 0..8 {
        assert_eq!(fractal.compute(Single(0.0), Single(0.0)), Colour::Black);
        fractal.on_key('z');
    }
    assert_eq!(fractal.max_iterations, 1);
    for _ in 0..12 {
        fractal.on_key('x');
        assert_eq!(fractal.compute(Single(0.0), Single(0.0)), Colour::Black);
    }
    assert_eq!(fractal.max_iterations, 4096);
}

#[test]
fn compute_colours_by_escape_count() {
    let fractal = square();
    assert_eq!(colour_at(&fractal, 0, 0, 4, 3), Colour::Red);
    assert_eq!(colour_at(&fractal, 1, 0, 4, 3), Colour::Red);
    assert_eq!(colour_at(&fractal, 2, 0, 4, 3), Colour::Black);
    assert_eq!(colour_at(&fractal, 1, 1, 4, 3), Colour::Black);
    assert_eq!(colour_at(&fractal, 3, 1, 4, 3), Colour::Red);
    assert_eq!(fractal.compute(Single(0.5), Single(0.8125)), Colour::Cyan);
    assert_eq!(fractal.compute(Single(0.75), Single(0.5)), Colour::Black);
    assert_eq!(fractal.compute(Single(0.8333333), Single(0.5)), Colour::Green);
}

#[test]
fn compute_follows_the_cutoff() {
    let mut fractal = square();
    fractal.on_key('z');
    assert_eq!(fractal.max_iterations, 25);
    assert_eq!(colour_at(&fractal, 1, 0, 4, 3), Colour::Green);
    assert_eq!(colour_at(&fractal, 3, 0, 4, 3), Colour::Red);
    keys(&mut fractal, "zzzz");
    assert_eq!(fractal.max_iterations, 2);
    assert_eq!(colour_at(&fractal, 1, 0, 4, 3), Colour::Black);
    assert_eq!(colour_at(&fractal, 3, 0, 4, 3), Colour::BrightBlack);
    fractal.on_key('z');
    assert_eq!(fractal.max_iterations, 1);
    assert_eq!(colour_at(&fractal, 0, 0, 4, 3), Colour::Red);
    assert_eq!(colour_at(&fractal, 3, 0, 4, 3), Colour::Black);
}

#[test]
fn draw_paints_the_first_frame() {
    let palette = Colour::variants();
    let bands = [
        [1, 1, 1, 1, 2, 3, 1, 1],
        [1, 4, 3, 0, 0, 0, 0, 2],
        [1, 4, 3, 0, 0, 0, 0, 2],
        [1, 1, 1, 1, 2, 3, 1, 1],
    ];
    let fractal = first(8, 4);
    let mut display = Display::new(8, 4);
    fractal.draw(&mut display, 8, 4);
    for y in 0..4 {
        for x in 0..8 {
            assert_eq!(
                cell(&mut display, x as isize, y as isize),
                Pixel::new('█', palette[bands[y][x]], Colour::Black),
                "cell ({x}, {y})"
            );
        }
    }
}

#[test]
fn draw_paints_the_frame_of_a_halved_cutoff() {
    let palette = Colour::variants();
    let bands = [
        [1, 2, 2, 2, 3, 6, 2, 1],
        [2, 7, 6, 0, 0, 0, 0, 4],
        [2, 7, 6, 0, 0, 0, 0, 4],
        [1, 2, 2, 2, 3, 6, 2, 1],
    ];
    let mut fractal = first(8, 4);
    fractal.on_key('z');
    let mut display = Display::new(8, 4);
    fractal.draw(&mut display, 8, 4);
    for y in 0..4 {
        for x in 0..8 {
            assert_eq!(cell(&mut display, x as isize, y as isize).colour(), palette[bands[y][x]]);
        }
    }
}

#[test]
fn draw_paints_every_cell_as_compute_colours_it() {
    let fractal = first(23, 11);
    let mut display = Display::new(23, 11);
    fractal.draw(&mut display, 23, 11);
    for y in 0..11u16 {
        for x in 0..23u16 {
            assert_eq!(
                cell(&mut display, x as isize, y as isize),
                Pixel::new('█', colour_at(&fractal, x, y, 23, 11), Colour::Black)
            );
        }
    }
}

#[test]
fn draw_leaves_cells_outside_the_grid() {
    let fractal = square();
    let mut display = Display::new(6, 5);
    display.set_pixel(5, 4, '?', Colour::Cyan, Colour::Magenta);
    fractal.draw(&mut display, 4, 3);
    for y in 0..5 {
        for x in 0..6 {
            let seen = cell(&mut display, x, y);
            if x < 4 && y < 3 {
                assert_eq!(seen.character(), '█');
                assert_eq!(seen.background(), Colour::Black);
            } else if (x, y) == (5, 4) {
                assert_eq!(seen, Pixel::new('?', Colour::Cyan, Colour::Magenta));
            } else {
                assert_eq!(seen, Pixel::default());
            }
        }
    }
}

#[test]
fn draw_into_a_smaller_display_paints_what_fits() {
    let fractal = square();
    let mut display = Display::new(2, 2);
    fractal.draw(&mut display, 4, 3);
    for y in 0..2u16 {
        for x in 0..2u16 {
            assert_eq!(
                cell(&mut display, x as isize, y as isize),
                Pixel::new('█', colour_at(&fractal, x, y, 4, 3), Colour::Black)
            );
        }
    }
}

#[test]
fn draw_overwrites_an_earlier_frame() {
    let mut fractal = square();
    let mut display = Display::new(4, 3);
    fractal.draw(&mut display, 4, 3);
    assert_eq!(cell(&mut display, 1, 0).colour(), Colour::Red);
    fractal.on_key('z');
    fractal.draw(&mut display, 4, 3);
    assert_eq!(cell(&mut display, 1, 0).colour(), Colour::Green);
}

#[test]
fn render_paints_the_grid_and_blanks_the_rest() {
    let fractal = square();
    let mut display = Display::new(6, 5);
    display.set_pixel(5, 4, '?', Colour::Cyan, Colour::Magenta);
    display.set_pixel(0, 0, '?', Colour::Cyan, Colour::Magenta);
    render(&fractal, &mut display, 4, 3);
    for y in 0..5u16 {
        for x in 0..6u16 {
            let seen = cell(&mut display, x as isize, y as isize);
            if x < 4 && y < 3 {
                assert_eq!(seen, Pixel::new('█', colour_at(&fractal, x, y, 4, 3), Colour::Black));
            } else {
                assert_eq!(seen, Pixel::new(' ', Colour::Black, Colour::White));
            }
        }
    }
}

#[test]
fn render_of_a_full_display_equals_draw() {
    let fractal = first(8, 4);
    let mut drawn = Display::new(8, 4);
    fractal.draw(&mut drawn, 8, 4);
    let mut rendered = Display::new(8, 4);
    rendered.set_pixel(3, 3, '?', Colour::Cyan, Colour::Magenta);
    render(&fractal, &mut rendered, 8, 4);
    assert_eq!(rendered.render(), drawn.render());
}

#[test]
fn iteration_keys_halve_and_double_the_cutoff() {
    let mut fractal = square();
    let mut seen = vec![fractal.max_iterations];
    for _ in 0..7 {
        fractal.on_key('z');
        seen.push(fractal.max_iterations);
    }
    assert_eq!(seen, vec![50, 25, 13, 7, 4, 2, 1, 1]);
    fractal.on_key('x');
    assert_eq!(fractal.max_iterations, 2);
    fractal.on_key('x');
    assert_eq!(fractal.max_iterations, 4);
    assert_eq!(view(&fractal), view(&square()));
    assert_eq!(fractal.step_fraction, Single(0.25));
}

#[test]
fn doubling_key_stops_at_the_largest_cutoff() {
    let mut fractal = square();
    for _ in 0..70 {
        fractal.on_key('x');
        assert!(fractal.max_iterations >= 1);
    }
    assert_eq!(fractal.max_iterations, usize::MAX);
    fractal.on_key('z');
    assert_eq!(fractal.max_iterations, usize::MAX / 2 + 1);
}

#[test]
fn pan_keys_move_the_origin_by_a_step() {
    let mut fractal = square();
    fractal.on_key('a');
    assert_eq!(view(&fractal), (-2.75, 3.0, -1.0, 2.0));
    keys(&mut fractal, "dd");
    assert_eq!(view(&fractal), (-1.25, 3.0, -1.0, 2.0));
    fractal.on_key('w');
    assert_eq!(view(&fractal), (-1.25, 3.0, -1.5, 2.0));
    keys(&mut fractal, "ss");
    assert_eq!(view(&fractal), (-1.25, 3.0, -0.5, 2.0));
    assert_eq!(fractal.max_iterations, 50);
    assert_eq!(fractal.step_fraction, Single(0.25));
}

#[test]
fn pan_keys_on_the_first_view() {
    let mut fractal = first(8, 4);
    fractal.on_key('a');
    assert_eq!(view(&fractal), (-1.7, 2.0, -1.0, 2.0));
    let mut fractal = first(8, 4);
    fractal.on_key('d');
    assert_eq!(view(&fractal), (-1.3, 2.0, -1.0, 2.0));
    let mut fractal = first(8, 4);
    fractal.on_key('w');
    assert_eq!(view(&fractal), (-1.5, 2.0, -1.2, 2.0));
    let mut fractal = first(8, 4);
    fractal.on_key('s');
    assert_eq!(view(&fractal), (-1.5, 2.0, -0.8, 2.0));
}

#[test]
fn zoom_keys_scale_the_span_about_the_centre() {
    let mut fractal = square();
    fractal.on_key('q');
    assert_eq!(view(&fractal), (-2.375, 3.75, -1.25, 2.5));
    let mut fractal = square();
    fractal.on_key('e');
    assert_eq!(view(&fractal), (-1.625, 2.25, -0.75, 1.5));
    assert_eq!(fractal.max_iterations, 50);
    assert_eq!(fractal.step_fraction, Single(0.25));
    let mut fractal = first(8, 4);
    fractal.on_key('q');
    assert_eq!(view(&fractal), (-1.6, 2.2, -1.1, 2.2));
    let mut fractal = first(8, 4);
    fractal.on_key('e');
    assert_eq!(view(&fractal), (-1.4, 1.8, -0.9, 1.8));
}

#[test]
fn zoom_keeps_the_centre() {
    let mut fractal = square();
    for typed in ["q", "q", "e", "e", "e"] {
        keys(&mut fractal, typed);
        assert_eq!(fractal.origin_x.0 + 0.5 * fractal.span_x.0, -0.5);
        assert_eq!(fractal.origin_y.0 + 0.5 * fractal.span_y.0, 0.0);
    }
}

#[test]
fn zoom_by_an_amount() {
    let mut fractal = square();
    fractal.zoom(Single(2.0));
    assert_eq!(view(&fractal), (-3.5, 6.0, -2.0, 4.0));
    fractal.zoom(Single(0.25));
    assert_eq!(view(&fractal), (-1.25, 1.5, -0.5, 1.0));
}

#[test]
fn zoom_that_would_leave_no_span_changes_nothing() {
    let mut fractal = square();
    fractal.zoom(Single(0.0));
    assert_eq!(view(&fractal), view(&square()));
    fractal.zoom(Single(-1.0));
    assert_eq!(view(&fractal), view(&square()));
    fractal.zoom(Single(f32::NAN));
    assert_eq!(view(&fractal), view(&square()));
}

#[test]
fn zooming_in_never_collapses_the_view() {
    let mut fractal = first(8, 4);
    for _ in 0..3000 {
        fractal.on_key('e');
        assert!(fractal.span_x.0 > 0.0 && fractal.span_y.0 > 0.0);
    }
    assert_eq!(fractal.max_iterations, 50);
}

#[test]
fn zoom_in_then_out_does_not_restore_the_span() {
    let mut fractal = first(8, 4);
    keys(&mut fractal, "eq");
    assert_ne!(fractal.span_x, Single(2.0));
    assert_ne!(fractal.span_y, Single(2.0));
    assert_eq!(view(&fractal), (-1.49, 1.98, -0.99, 1.98));
    let mut fractal = first(8, 4);
    keys(&mut fractal, "qe");
    assert_eq!(view(&fractal), (-1.49, 1.98, -0.99, 1.98));
    let mut fractal = square();
    keys(&mut fractal, "eq");
    assert_eq!(view(&fractal), (-1.90625, 2.8125, -0.9375, 1.875));
}

#[test]
fn pan_left_then_right_restores_the_origin() {
    let mut fractal = first(8, 4);
    fractal.on_key('a');
    assert_ne!(fractal.origin_x, Single(-1.5));
    fractal.on_key('d');
    assert_eq!(view(&fractal), (-1.5, 2.0, -1.0, 2.0));
    let mut fractal = square();
    keys(&mut fractal, "ad");
    assert_eq!(view(&fractal), view(&square()));
    keys(&mut fractal, "ws");
    assert_eq!(view(&fractal), view(&square()));
}

#[test]
fn pan_left_then_right_can_miss_by_a_rounding() {
    let mut fractal = first(8, 3);
    assert_eq!(view(&fractal), (-1.8333334, 2.6666667, -1.0, 2.0));
    keys(&mut fractal, "ad");
    assert_eq!(view(&fractal), (-1.8333335, 2.6666667, -1.0, 2.0));
}

#[test]
fn unknown_keys_change_nothing() {
    let mut fractal = square();
    keys(&mut fractal, "bAZ \u{1b}7");
    assert_eq!(view(&fractal), view(&square()));
    assert_eq!(fractal.max_iterations, 50);
    assert_eq!(fractal.step_fraction, Single(0.25));
}

#[test]
fn escape_and_read_failure_quit() {
    let mut fractal = square();
    assert_eq!(react(&mut fractal, Event::Escape), Flow::Quit);
    assert_eq!(react(&mut fractal, Event::Failed), Flow::Quit);
    assert_eq!(view(&fractal), view(&square()));
    assert_eq!(fractal.max_iterations, 50);
}

#[test]
fn character_events_reach_the_fractal() {
    let mut fractal = square();
    assert_eq!(react(&mut fractal, Event::Char('z')), Flow::Redraw);
    assert_eq!(fractal.max_iterations, 25);
    assert_eq!(react(&mut fractal, Event::Char('a')), Flow::Redraw);
    assert_eq!(fractal.origin_x, Single(-2.75));
    assert_eq!(react(&mut fractal, Event::Char('k')), Flow::Redraw);
    assert_eq!(fractal.max_iterations, 25);
}

#[test]
fn other_events_redraw_and_change_nothing() {
    let mut fractal = square();
    assert_eq!(react(&mut fractal, Event::Other), Flow::Redraw);
    assert_eq!(view(&fractal), view(&square()));
    assert_eq!(fractal.max_iterations, 50);
}

#[test]
fn q_zooms_and_does_not_quit() {
    let mut fractal = square();
    assert_eq!(react(&mut fractal, Event::Char('q')), Flow::Redraw);
    assert_eq!(fractal.span_x, Single(3.75));
}

#[test]
fn any_picture_can_be_drawn_and_steered() {
    let mut stripes = Stripes { swapped: false };
    let mut display = Display::new(4, 2);
    stripes.draw(&mut display, 4, 2);
    assert_eq!(cell(&mut display, 0, 0), Pixel::new('█', Colour::Yellow, Colour::Black));
    assert_eq!(cell(&mut display, 1, 1), Pixel::new('█', Colour::Yellow, Colour::Black));
    assert_eq!(cell(&mut display, 2, 0), Pixel::new('█', Colour::Blue, Colour::Black));
    assert_eq!(cell(&mut display, 3, 1), Pixel::new('█', Colour::Blue, Colour::Black));
    assert_eq!(react(&mut stripes, Event::Char('n')), Flow::Redraw);
    stripes.draw(&mut display, 4, 2);
    assert_eq!(cell(&mut display, 0, 0), Pixel::new('█', Colour::Blue, Colour::Black));
    assert_eq!(react(&mut stripes, Event::Escape), Flow::Quit);
    assert!(stripes.swapped);
}
