//! The parameters of a simulated annealing run.

use vstd::prelude::*;
use crate::bbob::functions::BBOBFunctionType;
use crate::scalar::Scalar;

verus! {

/// The parameters of a simulated annealing run.
#[derive(Copy, Clone, Debug)]
pub struct SAOptions {
    /// The function that the parameters are meant for.
    pub function: BBOBFunctionType,
    /// The temperature at which the global phase starts.
    pub initial_temperature: u8,
    /// Cooling rate. Temperature is multiplied by this value on each
    /// iteration that does not find a new minimum.
    pub annealing_schedule: Scalar,
    /// The most iterations that the global phase performs.
    pub max_iterations_sa: u64,
    /// The most iterations that the local search performs.
    pub max_iterations_ls: u64,
    /// The step by whose multiples the global phase moves a coordinate.
    pub initial_step_size_sa: Scalar,
    /// The step by whose multiples the local search moves a coordinate at
    /// first.
    pub initial_step_size_ls: Scalar,
    /// The temperature at which the global phase ends.
    pub min_temp: Scalar,
    /// Along how many of the most promising dimensions the global phase
    /// moves.
    pub n_best_sa: usize,
    /// Along how many of the most promising dimensions the local search
    /// moves.
    pub n_best_ls: usize,
    /// By what the step of the local search shrinks when its progress has
    /// flattened.
    pub ls_step_decrease: Scalar,
    /// The seed that fixes the random streams of the run.
    pub seed: [u8; 16],
}

impl SAOptions {
    /// The parameters that are used where none are given.
    pub open spec fn spec_default() -> SAOptions {
        SAOptions {
            function: BBOBFunctionType::AttractiveSector,
            initial_temperature: 100,
            annealing_schedule: Scalar { bits: 0x3FEE_6666_6666_6666 },
            max_iterations_sa: 2000,
            max_iterations_ls: 1000,
            initial_step_size_sa: Scalar { bits: 0x3FA9_9999_9999_999A },
            initial_step_size_ls: Scalar { bits: 0x4000_0000_0000_0000 },
            min_temp: Scalar { bits: 0x3FF0_0000_0000_0000 },
            n_best_sa: 39,
            n_best_ls: 39,
            ls_step_decrease: Scalar { bits: 0x3FB9_9999_9999_999A },
            seed: [67, 193, 140, 181, 155, 182, 45, 146, 4, 213, 77, 160, 217, 31, 143, 135],
        }
    }
}

impl Default for SAOptions {
    fn default() -> (r: SAOptions)
        ensures
            r == SAOptions::spec_default(),
    {
        Self {
            function: BBOBFunctionType::AttractiveSector,
            initial_temperature: 100,
            // 0.95
            annealing_schedule: Scalar { bits: 0x3FEE_6666_6666_6666 },
            max_iterations_sa: 2000,
            max_iterations_ls: 1000,
            // 0.05
            initial_step_size_sa: Scalar { bits: 0x3FA9_9999_9999_999A },
            // 2
            initial_step_size_ls: Scalar { bits: 0x4000_0000_0000_0000 },
            // 1
            min_temp: Scalar { bits: 0x3FF0_0000_0000_0000 },
            n_best_sa: 39,
            n_best_ls: 39,
            // 0.1
            ls_step_decrease: Scalar { bits: 0x3FB9_9999_9999_999A },
            seed: [67, 193, 140, 181, 155, 182, 45, 146, 4, 213, 77, 160, 217, 31, 143, 135],
        }
    }
}

} // verus!
