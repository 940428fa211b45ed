//! Command-line facing values and texts.
pub mod cli;
