//! Game environment and the minimax opponent.
pub mod minimax;
pub mod tictactoe;
