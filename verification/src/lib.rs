//! Verified core of a grid-based cellular-automaton simulator: the Conway
//! cell rule, a resizable dense grid, theme selection, and the mode state
//! machine and tick logic that drive editing and simulation.

pub mod cell;
pub mod game;
mod rng;
pub mod theme;
pub mod universe;

pub use cell::Cell;
pub use game::{GameOfLife, Key, State, TickInput};
pub use theme::{Style, Theme};
pub use universe::Universe;
