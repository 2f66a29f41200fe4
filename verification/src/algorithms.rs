//! The optimizers.

pub mod common;
pub mod firefly;
pub mod simulated_annealing;
