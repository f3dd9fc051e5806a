//! Decision core of a two-party, turn-based betting game on a 3x3 grid.
//!
//! Each board cell is resolved by a wagered-bid contest against an automated
//! opponent whose bid is derived from an external monotonic counter. The host
//! environment (which reads the counter and moves value once a reward is owed)
//! stays outside this crate; every operation here takes the counter values it
//! consumes as plain arguments, so the whole state machine is verified.

pub mod bid;
pub mod board;
pub mod game;
pub mod shuffle;

pub use bid::get_random_number;
pub use board::{Grid, Sign};
pub use game::{get_reward, play, setup_game, Game, GameState, TicTacToeError};
pub use shuffle::shuffle_array;
