//! What a run and a full optimization hand back.

use vstd::prelude::*;
use crate::algorithms::common::structs::Minimum;
use crate::algorithms::firefly::utilities::PointValue;

verus! {

/// The outcome of a full optimization.
#[derive(Debug)]
pub struct FireflyFullOptimizationResult {
    /// How many iterations each restart performed, in the order of the
    /// restarts. Refinement runs are not counted here.
    pub iterations_performed_per_restart: Vec<usize>,
    /// The best point that any run found.
    pub minimum: Minimum,
}

impl FireflyFullOptimizationResult {
    /// The outcome with the given iteration counts and minimum.
    #[inline]
    pub fn new(iterations_performed_per_restart: Vec<usize>, minimum: Minimum) -> (r: Self)
        ensures
            r.iterations_performed_per_restart == iterations_performed_per_restart,
            r.minimum == minimum,
    {
        Self { iterations_performed_per_restart, minimum }
    }
}

/// The outcome of a single run.
#[derive(Debug)]
pub struct FireflySingleRunOptimizationResult {
    /// How many iterations the run performed.
    pub iterations_performed: usize,
    /// The best point that the run found.
    pub minimum: PointValue,
}

impl FireflySingleRunOptimizationResult {
    /// The outcome with the given iteration count and minimum.
    pub fn new(iterations_performed: usize, minimum: PointValue) -> (r: Self)
        ensures
            r.iterations_performed == iterations_performed,
            r.minimum == minimum,
    {
        Self { iterations_performed, minimum }
    }
}

} // verus!
