//! A snake game on a walled board, as a verified library.
//!
//! The board is a [`grid::Grid`] of [`grid::Cell`]s inside a ring of walls.
//! The snake is a deque of coordinates, head first.  [`game::start`] sets up
//! the opening position.  Each tick the caller resolves the keys that were
//! pressed ([`input::read_input`]) and advances the snake by one square
//! ([`engine::move_player`]); the result says whether the game goes on.
//! [`render::render`] turns the board and the snake's length into text.
//! Reading keys, writing to the terminal and sleeping between ticks are left
//! to the caller.

pub mod direction;
pub mod engine;
pub mod food;
pub mod game;
pub mod grid;
pub mod input;
pub mod render;
