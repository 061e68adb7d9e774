//! The keyboard: which character key asks for what.

use vstd::prelude::*;

verus! {

/// A change of the view rectangle.
#[derive(Clone, Copy, Debug, PartialEq, Eq, Structural)]
pub enum Motion {
    /// Move the view left by one step.
    PanLeft,
    /// Move the view right by one step.
    PanRight,
    /// Move the view up by one step.
    PanUp,
    /// Move the view down by one step.
    PanDown,
    /// Widen the view by one step about its centre.
    ZoomOut,
    /// Narrow the view by one step about its centre.
    ZoomIn,
}

/// What a character key asks for.
#[derive(Clone, Copy, Debug, PartialEq, Eq, Structural)]
pub enum Command {
    /// Change the view rectangle.
    Move(Motion),
    /// Halve the iteration cutoff.
    HalveIterations,
    /// Double the iteration cutoff.
    DoubleIterations,
    /// Nothing: the key has no meaning.
    Ignore,
}

/// The meaning of each character key: `a`, `d`, `w`, `s` pan left, right,
/// up and down; `q` zooms out and `e` zooms in; `z` halves and `x` doubles
/// the iteration cutoff; every other character means nothing.
pub open spec fn spec_command_for(ch: char) -> Command {
    if ch == 'a' {
        Command::Move(Motion::PanLeft)
    } else if ch == 'd' {
        Command::Move(Motion::PanRight)
    } else if ch == 'w' {
        Command::Move(Motion::PanUp)
    } else if ch == 's' {
        Command::Move(Motion::PanDown)
    } else if ch == 'q' {
        Command::Move(Motion::ZoomOut)
    } else if ch == 'e' {
        Command::Move(Motion::ZoomIn)
    } else if ch == 'z' {
        Command::HalveIterations
    } else if ch == 'x' {
        Command::DoubleIterations
    } else {
        Command::Ignore
    }
}

/// Decodes a character key.
pub fn command_for(ch: char) -> (command: Command)
    ensures
        command == spec_command_for(ch),
{
    match ch {
        'a' => Command::Move(Motion::PanLeft),
        'd' => Command::Move(Motion::PanRight),
        'w' => Command::Move(Motion::PanUp),
        's' => Command::Move(Motion::PanDown),
        'q' => Command::Move(Motion::ZoomOut),
        'e' => Command::Move(Motion::ZoomIn),
        'z' => Command::HalveIterations,
        'x' => Command::DoubleIterations,
        _ => Command::Ignore,
    }
}

} // verus!
