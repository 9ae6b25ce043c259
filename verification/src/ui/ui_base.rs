//! The presentation modes and the events a presentation hands to the game.

use vstd::prelude::*;

verus! {

/// How the game is presented: in a window or as text on the console.
#[derive(Clone, Copy, PartialEq, Eq, Debug, Structural)]
pub enum Mode {
    Gui,
    Cli,
}

/// What a presentation reports when it is asked for input.
#[derive(Clone, Copy, PartialEq, Eq, Debug)]
pub enum Event {
    /// The game ends.
    Quit,
    /// A player asks for the cell at this row and column.
    Point((usize, usize)),
    /// The game starts again on an empty board.
    Restart,
    /// Nothing happened that concerns the game.
    Idle,
}

} // verus!
