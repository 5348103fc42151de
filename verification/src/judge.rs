//! The judging engine: comparing outputs, shaping what the stages report,
//! folding attempts into a verdict, and the lane that drives one submission
//! from its identifier to its final status.

pub mod comparator;
pub mod execution;
pub mod lane;
pub mod laws;
pub mod verdict;
