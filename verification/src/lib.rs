//! Tic-Tac-Toe environment, minimax opponent, curriculum bookkeeping and
//! configuration rules for training a predictive-coding actor-critic agent.
//!
//! Every function here carries a contract that its body is proved to meet.
//! The agent's numerical code (floating-point networks) lives outside this
//! library.
pub mod env;
pub mod training;
pub mod ui;
pub mod utils;
