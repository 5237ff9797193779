//! A two-player game of noughts and crosses on a 3×3 grid: the board, the
//! players, the grammar of a typed move, the test for three in a line, and
//! the turn-by-turn state machine that ties them together.

pub mod board;
pub mod game;
pub mod input;
pub mod player;
pub mod win;

pub use board::{Board, BoardError, Cell, Mark};
pub use game::{GameState, Phase, Reply};
pub use input::{parse_input, parse_move, Coordinate, Input, ParseError};
pub use player::Player;
pub use win::has_winner;
