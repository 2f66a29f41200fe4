//! The benchmark suite as the optimizers see it: which functions there are
//! and within which bounds they are searched.

pub mod functions;
pub mod names;
pub mod problem;
