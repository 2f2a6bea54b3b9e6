//! Rules engine for chess played under a fog of war.
//!
//! The crate decides which cells a piece may move to, what a move, a capture
//! or a castle does to the board, and which cells the player to move can see.

pub mod board;
mod cells;
pub mod fog;
pub mod game;
pub mod laws;
pub mod movegen;
pub mod piece;
pub mod rules;
pub mod selection;
pub mod setup;
pub mod sight;
pub mod turns;

pub use board::{on_board, Board, BoardIter, Position};
pub use fog::{FogMask, Visibility};
pub use game::{Game, Outcome, State};
pub use piece::{Piece, Player, Unit};
pub use rules::Direction;
pub use selection::Selection;
pub use setup::{Config, ConfigError};
pub use sight::{ray, LineOfSight};
