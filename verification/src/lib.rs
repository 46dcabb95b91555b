//! Conway's Game of Life on a fixed grid without wraparound.
//!
//! - `grid`: the grid as a sequence of cell codes, and the functions on it
//!   that the contracts are written in: the automaton's rule, a stroke of
//!   the pointer, the hover mark.
//! - `game`: the game itself, a grid and its mode, with the operations that
//!   edit it, advance it, and dump and load it.
//! - `codec`: the dump of a grid as big-endian words.
//! - `input`: what the game does with one input event.
//! - `render`: the tiles that show a game.
//! - `laws`: what holds of every valid grid.

pub mod codec;
pub mod game;
pub mod grid;
pub mod input;
pub mod laws;
pub mod render;
