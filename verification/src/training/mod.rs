//! Training-side bookkeeping that is independent of the agent's numerics.
pub mod episode;
pub mod curriculum;
pub mod continuous;
pub mod champion;
pub mod experiment;
