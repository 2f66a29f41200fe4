//! Simulated annealing followed by a local search.

pub mod hyperparam_optimization;
pub mod neighborhood_generation;
pub mod options;
pub mod simulated_annealing;
