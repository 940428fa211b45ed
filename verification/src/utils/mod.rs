//! Configuration, logging levels, outcome metrics and text helpers.
pub mod text;
pub mod metrics;
pub mod logger;
pub mod config;
pub mod order;
pub mod random;
