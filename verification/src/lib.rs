//! Black-box minimisation of benchmark functions with a firefly swarm and
//! with simulated annealing.
//!
//! Both optimizers treat the objective as an oracle: they hand it a position
//! and get a value back. They search by ordering, comparing and selecting
//! candidates, and that is what this library does and proves.
//!
//! Numbers are held as the bit patterns of binary64 values
//! ([`scalar::Scalar`]), on which every comparison is defined exactly. What
//! needs floating-point arithmetic, a random number or the objective is asked
//! of three functions that the caller hands in: one that evaluates the
//! objective at a position, one that gives a draw of a seeded stream of
//! numbers, and one that gives the value of an
//! [`algorithms::common::arithmetic::Expression`]. The contracts say what the
//! optimizers make of whatever these functions return.

pub mod algorithms;
pub mod bbob;
pub mod commands;
pub mod scalar;
