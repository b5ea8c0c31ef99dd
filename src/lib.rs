//! Tic Tac Toe: two players take turns marking a 3x3 grid; the first to
//! align three marks horizontally, vertically or diagonally wins.
//!
//! The board state machine, the check that ties a move to the player whose
//! turn it is, and the persisted game session are verified here.

pub mod board;
pub mod laws;
pub mod player;
pub mod session;

pub use board::{Board, BoardView, Cell, GameError, GameOutcome};
pub use player::Player;
pub use session::{
    authorize, GameSnapshot, GameState, InstantiationArgument, Operation, Owner, TicTacToeAbi,
    TicTacToeContract, TicTacToeService,
};
