//! The hyperparameter probe: which parameter of simulated annealing to change,
//! and which way.
//!
//! The probe reruns simulated annealing with a parameter raised and lowered,
//! sees which of the two comes closer to the known minimum of the function,
//! and moves the parameter that way.

use vstd::prelude::*;
use crate::algorithms::common::arithmetic::{
    calculated,
    calculates_all,
    evaluates_all,
    samples_all,
    Expression,
};
use crate::algorithms::common::sorting::{is_sorting_of, sort_descending, Ranked};
use crate::algorithms::common::structs::Candidate;
use crate::algorithms::simulated_annealing::options::SAOptions;
use crate::algorithms::simulated_annealing::simulated_annealing::{
    minimum_view,
    run_sa,
    sa_ran,
    SAError,
};
use crate::bbob::problem::BBOBProblem;
use crate::scalar::Scalar;

verus! {

/// Which way a parameter is to change.
#[derive(Clone, Copy, Debug, PartialEq, Eq, Structural)]
pub enum Direction {
    Positive,
    Negative,
}

impl Direction {
    /// The name of the direction, which is that of its variant.
    pub open spec fn spec_name(&self) -> Seq<char> {
        match self {
            Direction::Positive => "Positive"@,
            Direction::Negative => "Negative"@,
        }
    }

    /// The name of the direction.
    pub fn name(&self) -> (r: &'static str)
        ensures
            r@ == self.spec_name(),
    {
        match self {
            Direction::Positive => "Positive",
            Direction::Negative => "Negative",
        }
    }
}

/// A parameter of simulated annealing that the probe can change.
#[derive(Clone, Copy, Debug, PartialEq, Eq, Structural)]
pub enum SAOption {
    InitialTemperature,
    AnnealingSchedule,
    MaxIterationsSa,
    MaxIterationsLs,
    InitialStepSizeSa,
    InitialStepSizeLs,
    MinTemp,
    BestNSa,
    BestNLs,
}

impl SAOption {
    /// The parameters in the order in which they are declared.
    pub open spec fn all() -> Seq<SAOption> {
        seq![
            SAOption::InitialTemperature,
            SAOption::AnnealingSchedule,
            SAOption::MaxIterationsSa,
            SAOption::MaxIterationsLs,
            SAOption::InitialStepSizeSa,
            SAOption::InitialStepSizeLs,
            SAOption::MinTemp,
            SAOption::BestNSa,
            SAOption::BestNLs,
        ]
    }

    /// The place of the parameter among all parameters, from 0.
    pub open spec fn spec_ordinal(&self) -> usize {
        match self {
            SAOption::InitialTemperature => 0,
            SAOption::AnnealingSchedule => 1,
            SAOption::MaxIterationsSa => 2,
            SAOption::MaxIterationsLs => 3,
            SAOption::InitialStepSizeSa => 4,
            SAOption::InitialStepSizeLs => 5,
            SAOption::MinTemp => 6,
            SAOption::BestNSa => 7,
            SAOption::BestNLs => 8,
        }
    }

    /// The name of the parameter, which is that of its variant.
    pub open spec fn spec_name(&self) -> Seq<char> {
        match self {
            SAOption::InitialTemperature => "InitialTemperature"@,
            SAOption::AnnealingSchedule => "AnnealingSchedule"@,
            SAOption::MaxIterationsSa => "MaxIterationsSa"@,
            SAOption::MaxIterationsLs => "MaxIterationsLs"@,
            SAOption::InitialStepSizeSa => "InitialStepSizeSa"@,
            SAOption::InitialStepSizeLs => "InitialStepSizeLs"@,
            SAOption::MinTemp => "MinTemp"@,
            SAOption::BestNSa => "BestNSa"@,
            SAOption::BestNLs => "BestNLs"@,
        }
    }

    /// All parameters, in the order in which they are declared.
    pub fn iterator() -> (r: Vec<SAOption>)
        ensures
            r@ == SAOption::all(),
    {
        let mut options: Vec<SAOption> = Vec::with_capacity(9);
        options.push(SAOption::InitialTemperature);
        options.push(SAOption::AnnealingSchedule);
        options.push(SAOption::MaxIterationsSa);
        options.push(SAOption::MaxIterationsLs);
        options.push(SAOption::InitialStepSizeSa);
        options.push(SAOption::InitialStepSizeLs);
        options.push(SAOption::MinTemp);
        options.push(SAOption::BestNSa);
        options.push(SAOption::BestNLs);
        proof {
            assert(options@ =~= SAOption::all());
        }
        options
    }

    /// The place of the parameter among all parameters, from 0.
    #[verifier::when_used_as_spec(spec_ordinal)]
    pub fn ordinal(&self) -> (r: usize)
        ensures
            r == self.spec_ordinal(),
            r < 9,
            SAOption::all()[r as int] == *self,
    {
        match self {
            SAOption::InitialTemperature => 0,
            SAOption::AnnealingSchedule => 1,
            SAOption::MaxIterationsSa => 2,
            SAOption::MaxIterationsLs => 3,
            SAOption::InitialStepSizeSa => 4,
            SAOption::InitialStepSizeLs => 5,
            SAOption::MinTemp => 6,
            SAOption::BestNSa => 7,
            SAOption::BestNLs => 8,
        }
    }

    /// The name of the parameter.
    pub fn name(&self) -> (r: &'static str)
        ensures
            r@ == self.spec_name(),
    {
        match self {
            SAOption::InitialTemperature => "InitialTemperature",
            SAOption::AnnealingSchedule => "AnnealingSchedule",
            SAOption::MaxIterationsSa => "MaxIterationsSa",
            SAOption::MaxIterationsLs => "MaxIterationsLs",
            SAOption::InitialStepSizeSa => "InitialStepSizeSa",
            SAOption::InitialStepSizeLs => "InitialStepSizeLs",
            SAOption::MinTemp => "MinTemp",
            SAOption::BestNSa => "BestNSa",
            SAOption::BestNLs => "BestNLs",
        }
    }
}

/// What probing a parameter gave: how much the outcome responds to it, and
/// which way the parameter is to change.
#[derive(Clone, Copy, Debug, PartialEq, Eq, Structural)]
pub struct OptionValue {
    pub option: SAOption,
    pub option_diff: Scalar,
    pub direction: Direction,
}

impl Ranked for OptionValue {
    open spec fn key(&self) -> Scalar {
        self.option_diff
    }

    /// Of two parameters to which the outcome responds the same, the one
    /// that is declared first goes first.
    open spec fn tie(&self) -> nat {
        self.option.spec_ordinal() as nat
    }

    fn sort_key(&self) -> (r: Scalar) {
        self.option_diff
    }

    fn sort_tie(&self) -> (r: usize) {
        self.option.ordinal()
    }
}

/// The number 0.01.
pub open spec fn hundredth() -> Scalar {
    Scalar { bits: 0x3F84_7AE1_47AE_147B }
}

/// The number 0.02.
pub open spec fn fiftieth() -> Scalar {
    Scalar { bits: 0x3F94_7AE1_47AE_147B }
}

/// The number 0.1.
pub open spec fn tenth() -> Scalar {
    Scalar { bits: 0x3FB9_9999_9999_999A }
}

/// The number 0.5.
pub open spec fn half() -> Scalar {
    Scalar { bits: 0x3FE0_0000_0000_0000 }
}

/// The number 2.
pub open spec fn two() -> Scalar {
    Scalar { bits: 0x4000_0000_0000_0000 }
}

/// The most dimensions along which the probe lets a phase move.
pub const MOST_DIMENSIONS: usize = 39;

/// Whether the parameter of `change` can be moved its way within the limits
/// of the machine: a count that is to fall is large enough, and one that is
/// to rise has room.
pub open spec fn spec_can_adjust(options: SAOptions, change: OptionValue) -> bool {
    match (change.option, change.direction) {
        (SAOption::InitialTemperature, Direction::Positive) => options.initial_temperature <= u8::MAX
            - 2,
        (SAOption::InitialTemperature, Direction::Negative) => options.initial_temperature >= 2,
        (SAOption::MaxIterationsSa, Direction::Positive) => options.max_iterations_sa <= u64::MAX
            - 500,
        (SAOption::MaxIterationsSa, Direction::Negative) => options.max_iterations_sa >= 500,
        (SAOption::MaxIterationsLs, Direction::Positive) => options.max_iterations_ls <= u64::MAX
            - 1000,
        (SAOption::MaxIterationsLs, Direction::Negative) => options.max_iterations_ls >= 1000,
        (SAOption::BestNSa, Direction::Negative) => options.n_best_sa >= 1,
        (SAOption::BestNLs, Direction::Negative) => options.n_best_ls >= 1,
        _ => true,
    }
}

/// Whether `adjusted` is what moving the parameter of `change` its way may
/// make of `options`.
///
/// The initial temperature moves by 2, the iterations of the global phase by
/// 500 and those of the local search by 1000. The annealing schedule rises
/// by 0.01 or falls by 0.02; the step of the global phase moves by 0.1; the
/// step of the local search rises by 0.01 or is halved; the minimum
/// temperature rises by 2 or falls to a tenth. The dimensions of a phase
/// move by one, but do not rise beyond 39.
pub open spec fn adjusted<C: Fn(Expression) -> Scalar>(
    calculate: &C,
    options: SAOptions,
    change: OptionValue,
    adjusted: SAOptions,
) -> bool {
    match (change.option, change.direction) {
        (SAOption::InitialTemperature, Direction::Positive) => adjusted == (SAOptions {
            initial_temperature: (options.initial_temperature + 2) as u8,
            ..options
        }),
        (SAOption::InitialTemperature, Direction::Negative) => adjusted == (SAOptions {
            initial_temperature: (options.initial_temperature - 2) as u8,
            ..options
        }),
        (SAOption::AnnealingSchedule, Direction::Positive) => adjusted == (SAOptions {
            annealing_schedule: adjusted.annealing_schedule,
            ..options
        }) && calculated(
            calculate,
            Expression::Sum(options.annealing_schedule, hundredth()),
            adjusted.annealing_schedule,
        ),
        (SAOption::AnnealingSchedule, Direction::Negative) => adjusted == (SAOptions {
            annealing_schedule: adjusted.annealing_schedule,
            ..options
        }) && calculated(
            calculate,
            Expression::Difference(options.annealing_schedule, fiftieth()),
            adjusted.annealing_schedule,
        ),
        (SAOption::MaxIterationsSa, Direction::Positive) => adjusted == (SAOptions {
            max_iterations_sa: (options.max_iterations_sa + 500) as u64,
            ..options
        }),
        (SAOption::MaxIterationsSa, Direction::Negative) => adjusted == (SAOptions {
            max_iterations_sa: (options.max_iterations_sa - 500) as u64,
            ..options
        }),
        (SAOption::MaxIterationsLs, Direction::Positive) => adjusted == (SAOptions {
            max_iterations_ls: (options.max_iterations_ls + 1000) as u64,
            ..options
        }),
        (SAOption::MaxIterationsLs, Direction::Negative) => adjusted == (SAOptions {
            max_iterations_ls: (options.max_iterations_ls - 1000) as u64,
            ..options
        }),
        (SAOption::InitialStepSizeSa, Direction::Positive) => adjusted == (SAOptions {
            initial_step_size_sa: adjusted.initial_step_size_sa,
            ..options
        }) && calculated(
            calculate,
            Expression::Sum(options.initial_step_size_sa, tenth()),
            adjusted.initial_step_size_sa,
        ),
        (SAOption::InitialStepSizeSa, Direction::Negative) => adjusted == (SAOptions {
            initial_step_size_sa: adjusted.initial_step_size_sa,
            ..options
        }) && calculated(
            calculate,
            Expression::Difference(options.initial_step_size_sa, tenth()),
            adjusted.initial_step_size_sa,
        ),
        (SAOption::InitialStepSizeLs, Direction::Positive) => adjusted == (SAOptions {
            initial_step_size_ls: adjusted.initial_step_size_ls,
            ..options
        }) && calculated(
            calculate,
            Expression::Sum(options.initial_step_size_ls, hundredth()),
            adjusted.initial_step_size_ls,
        ),
        (SAOption::InitialStepSizeLs, Direction::Negative) => adjusted == (SAOptions {
            initial_step_size_ls: adjusted.initial_step_size_ls,
            ..options
        }) && calculated(
            calculate,
            Expression::Product(options.initial_step_size_ls, half()),
            adjusted.initial_step_size_ls,
        ),
        (SAOption::MinTemp, Direction::Positive) => adjusted == (SAOptions {
            min_temp: adjusted.min_temp,
            ..options
        }) && calculated(calculate, Expression::Sum(options.min_temp, two()), adjusted.min_temp),
        (SAOption::MinTemp, Direction::Negative) => adjusted == (SAOptions {
            min_temp: adjusted.min_temp,
            ..options
        }) && calculated(
            calculate,
            Expression::Product(options.min_temp, tenth()),
            adjusted.min_temp,
        ),
        (SAOption::BestNSa, Direction::Positive) => adjusted == if options.n_best_sa
            < MOST_DIMENSIONS {
            SAOptions { n_best_sa: (options.n_best_sa + 1) as usize, ..options }
        } else {
            options
        },
        (SAOption::BestNSa, Direction::Negative) => adjusted == (SAOptions {
            n_best_sa: (options.n_best_sa - 1) as usize,
            ..options
        }),
        (SAOption::BestNLs, Direction::Positive) => adjusted == if options.n_best_ls
            < MOST_DIMENSIONS {
            SAOptions { n_best_ls: (options.n_best_ls + 1) as usize, ..options }
        } else {
            options
        },
        (SAOption::BestNLs, Direction::Negative) => adjusted == (SAOptions {
            n_best_ls: (options.n_best_ls - 1) as usize,
            ..options
        }),
    }
}

/// Whether the parameter of `change` can be moved its way within the limits
/// of the machine.
#[verifier::when_used_as_spec(spec_can_adjust)]
pub fn can_adjust(options: SAOptions, change: OptionValue) -> (r: bool)
    ensures
        r == spec_can_adjust(options, change),
{
    match (change.option, change.direction) {
        (SAOption::InitialTemperature, Direction::Positive) => options.initial_temperature <= u8::MAX
            - 2,
        (SAOption::InitialTemperature, Direction::Negative) => options.initial_temperature >= 2,
        (SAOption::MaxIterationsSa, Direction::Positive) => options.max_iterations_sa <= u64::MAX
            - 500,
        (SAOption::MaxIterationsSa, Direction::Negative) => options.max_iterations_sa >= 500,
        (SAOption::MaxIterationsLs, Direction::Positive) => options.max_iterations_ls <= u64::MAX
            - 1000,
        (SAOption::MaxIterationsLs, Direction::Negative) => options.max_iterations_ls >= 1000,
        (SAOption::BestNSa, Direction::Negative) => options.n_best_sa >= 1,
        (SAOption::BestNLs, Direction::Negative) => options.n_best_ls >= 1,
        _ => true,
    }
}

/// Moves the parameter of `change` its way.
pub fn adjust_options<C: Fn(Expression) -> Scalar>(
    options: SAOptions,
    change: OptionValue,
    calculate: &C,
) -> (r: SAOptions)
    requires
        calculates_all(calculate),
        can_adjust(options, change),
    ensures
        adjusted(calculate, options, change, r),
{
    match change.option {
        SAOption::InitialTemperature => match change.direction {
            Direction::Positive => SAOptions {
                initial_temperature: options.initial_temperature + 2,
                ..options
            },
            Direction::Negative => SAOptions {
                initial_temperature: options.initial_temperature - 2,
                ..options
            },
        },
        SAOption::AnnealingSchedule => match change.direction {
            Direction::Positive => SAOptions {
                annealing_schedule: calculate(
                    Expression::Sum(
                        options.annealing_schedule,
                        Scalar { bits: 0x3F84_7AE1_47AE_147B },
                    ),
                ),
                ..options
            },
            Direction::Negative => SAOptions {
                annealing_schedule: calculate(
                    Expression::Difference(
                        options.annealing_schedule,
                        Scalar { bits: 0x3F94_7AE1_47AE_147B },
                    ),
                ),
                ..options
            },
        },
        SAOption::MaxIterationsSa => match change.direction {
            Direction::Positive => SAOptions {
                max_iterations_sa: options.max_iterations_sa + 500,
                ..options
            },
            Direction::Negative => SAOptions {
                max_iterations_sa: options.max_iterations_sa - 500,
                ..options
            },
        },
        SAOption::MaxIterationsLs => match change.direction {
            Direction::Positive => SAOptions {
                max_iterations_ls: options.max_iterations_ls + 1000,
                ..options
            },
            Direction::Negative => SAOptions {
                max_iterations_ls: options.max_iterations_ls - 1000,
                ..options
            },
        },
        SAOption::InitialStepSizeSa => match change.direction {
            Direction::Positive => SAOptions {
                initial_step_size_sa: calculate(
                    Expression::Sum(
                        options.initial_step_size_sa,
                        Scalar { bits: 0x3FB9_9999_9999_999A },
                    ),
                ),
                ..options
            },
            Direction::Negative => SAOptions {
                initial_step_size_sa: calculate(
                    Expression::Difference(
                        options.initial_step_size_sa,
                        Scalar { bits: 0x3FB9_9999_9999_999A },
                    ),
                ),
                ..options
            },
        },
        SAOption::InitialStepSizeLs => match change.direction {
            Direction::Positive => SAOptions {
                initial_step_size_ls: calculate(
                    Expression::Sum(
                        options.initial_step_size_ls,
                        Scalar { bits: 0x3F84_7AE1_47AE_147B },
                    ),
                ),
                ..options
            },
            Direction::Negative => SAOptions {
                initial_step_size_ls: calculate(
                    Expression::Product(
                        options.initial_step_size_ls,
                        Scalar { bits: 0x3FE0_0000_0000_0000 },
                    ),
                ),
                ..options
            },
        },
        SAOption::MinTemp => match change.direction {
            Direction::Positive => SAOptions {
                min_temp: calculate(
                    Expression::Sum(options.min_temp, Scalar { bits: 0x4000_0000_0000_0000 }),
                ),
                ..options
            },
            Direction::Negative => SAOptions {
                min_temp: calculate(
                    Expression::Product(options.min_temp, Scalar { bits: 0x3FB9_9999_9999_999A }),
                ),
                ..options
            },
        },
        SAOption::BestNSa => match change.direction {
            Direction::Positive => if options.n_best_sa < MOST_DIMENSIONS {
                SAOptions { n_best_sa: options.n_best_sa + 1, ..options }
            } else {
                options
            },
            Direction::Negative => SAOptions { n_best_sa: options.n_best_sa - 1, ..options },
        },
        SAOption::BestNLs => match change.direction {
            Direction::Positive => if options.n_best_ls < MOST_DIMENSIONS {
                SAOptions { n_best_ls: options.n_best_ls + 1, ..options }
            } else {
                options
            },
            Direction::Negative => SAOptions { n_best_ls: options.n_best_ls - 1, ..options },
        },
    }
}

/// The number 10.
pub open spec fn ten() -> Scalar {
    Scalar { bits: 0x4024_0000_0000_0000 }
}

/// Whether the parameter `option` can be perturbed in the direction
/// `direction` within the limits of the machine, when it stands at its value
/// in `options`.
pub open spec fn spec_can_perturb(option: SAOption, direction: Direction, options: SAOptions) -> bool {
    match (option, direction) {
        (SAOption::InitialTemperature, Direction::Positive) => options.initial_temperature <= u8::MAX
            - 5,
        (SAOption::InitialTemperature, Direction::Negative) => options.initial_temperature >= 5,
        (SAOption::MaxIterationsSa, Direction::Positive) => options.max_iterations_sa <= u64::MAX
            - 500,
        (SAOption::MaxIterationsSa, Direction::Negative) => options.max_iterations_sa >= 500,
        (SAOption::MaxIterationsLs, Direction::Positive) => options.max_iterations_ls <= u64::MAX
            - 500,
        (SAOption::MaxIterationsLs, Direction::Negative) => options.max_iterations_ls >= 500,
        (SAOption::BestNSa, Direction::Positive) => options.n_best_sa < usize::MAX,
        (SAOption::BestNSa, Direction::Negative) => options.n_best_sa >= 1,
        (SAOption::BestNLs, Direction::Positive) => options.n_best_ls < usize::MAX,
        (SAOption::BestNLs, Direction::Negative) => options.n_best_ls >= 1,
        _ => true,
    }
}

/// Whether every parameter can be perturbed both ways within the limits of
/// the machine, when they stand at their values in `options`.
pub open spec fn spec_can_probe(options: SAOptions) -> bool {
    forall|option: SAOption, direction: Direction| #[trigger]
        spec_can_perturb(option, direction, options)
}

/// Whether `perturbed` is what the default options may become when the
/// parameter `option` is set to its value in `options`, perturbed in the
/// direction `direction`.
///
/// The initial temperature is perturbed by 5, the iterations of either phase
/// by 500, the annealing schedule by 0.02, the minimum temperature by 10 and
/// the dimensions of either phase by 1. A step rises by 0.1 and falls to a
/// tenth.
pub open spec fn perturbed<C: Fn(Expression) -> Scalar>(
    calculate: &C,
    option: SAOption,
    direction: Direction,
    options: SAOptions,
    perturbed: SAOptions,
) -> bool {
    let default = SAOptions::spec_default();
    match (option, direction) {
        (SAOption::InitialTemperature, Direction::Positive) => perturbed == (SAOptions {
            initial_temperature: (options.initial_temperature + 5) as u8,
            ..default
        }),
        (SAOption::InitialTemperature, Direction::Negative) => perturbed == (SAOptions {
            initial_temperature: (options.initial_temperature - 5) as u8,
            ..default
        }),
        (SAOption::AnnealingSchedule, Direction::Positive) => perturbed == (SAOptions {
            annealing_schedule: perturbed.annealing_schedule,
            ..default
        }) && calculated(
            calculate,
            Expression::Sum(options.annealing_schedule, fiftieth()),
            perturbed.annealing_schedule,
        ),
        (SAOption::AnnealingSchedule, Direction::Negative) => perturbed == (SAOptions {
            annealing_schedule: perturbed.annealing_schedule,
            ..default
        }) && calculated(
            calculate,
            Expression::Difference(options.annealing_schedule, fiftieth()),
            perturbed.annealing_schedule,
        ),
        (SAOption::MaxIterationsSa, Direction::Positive) => perturbed == (SAOptions {
            max_iterations_sa: (options.max_iterations_sa + 500) as u64,
            ..default
        }),
        (SAOption::MaxIterationsSa, Direction::Negative) => perturbed == (SAOptions {
            max_iterations_sa: (options.max_iterations_sa - 500) as u64,
            ..default
        }),
        (SAOption::MaxIterationsLs, Direction::Positive) => perturbed == (SAOptions {
            max_iterations_ls: (options.max_iterations_ls + 500) as u64,
            ..default
        }),
        (SAOption::MaxIterationsLs, Direction::Negative) => perturbed == (SAOptions {
            max_iterations_ls: (options.max_iterations_ls - 500) as u64,
            ..default
        }),
        (SAOption::InitialStepSizeSa, Direction::Positive) => perturbed == (SAOptions {
            initial_step_size_sa: perturbed.initial_step_size_sa,
            ..default
        }) && calculated(
            calculate,
            Expression::Sum(options.initial_step_size_sa, tenth()),
            perturbed.initial_step_size_sa,
        ),
        (SAOption::InitialStepSizeSa, Direction::Negative) => perturbed == (SAOptions {
            initial_step_size_sa: perturbed.initial_step_size_sa,
            ..default
        }) && calculated(
            calculate,
            Expression::Product(options.initial_step_size_sa, tenth()),
            perturbed.initial_step_size_sa,
        ),
        (SAOption::InitialStepSizeLs, Direction::Positive) => perturbed == (SAOptions {
            initial_step_size_ls: perturbed.initial_step_size_ls,
            ..default
        }) && calculated(
            calculate,
            Expression::Sum(options.initial_step_size_ls, tenth()),
            perturbed.initial_step_size_ls,
        ),
        (SAOption::InitialStepSizeLs, Direction::Negative) => perturbed == (SAOptions {
            initial_step_size_ls: perturbed.initial_step_size_ls,
            ..default
        }) && calculated(
            calculate,
            Expression::Product(options.initial_step_size_ls, tenth()),
            perturbed.initial_step_size_ls,
        ),
        (SAOption::MinTemp, Direction::Positive) => perturbed == (SAOptions {
            min_temp: perturbed.min_temp,
            ..default
        }) && calculated(calculate, Expression::Sum(options.min_temp, ten()), perturbed.min_temp),
        (SAOption::MinTemp, Direction::Negative) => perturbed == (SAOptions {
            min_temp: perturbed.min_temp,
            ..default
        }) && calculated(
            calculate,
            Expression::Difference(options.min_temp, ten()),
            perturbed.min_temp,
        ),
        (SAOption::BestNSa, Direction::Positive) => perturbed == (SAOptions {
            n_best_sa: (options.n_best_sa + 1) as usize,
            ..default
        }),
        (SAOption::BestNSa, Direction::Negative) => perturbed == (SAOptions {
            n_best_sa: (options.n_best_sa - 1) as usize,
            ..default
        }),
        (SAOption::BestNLs, Direction::Positive) => perturbed == (SAOptions {
            n_best_ls: (options.n_best_ls + 1) as usize,
            ..default
        }),
        (SAOption::BestNLs, Direction::Negative) => perturbed == (SAOptions {
            n_best_ls: (options.n_best_ls - 1) as usize,
            ..default
        }),
    }
}

/// Whether the parameter `option` can be perturbed in the direction
/// `direction` within the limits of the machine.
#[verifier::when_used_as_spec(spec_can_perturb)]
pub fn can_perturb(option: SAOption, direction: Direction, options: SAOptions) -> (r: bool)
    ensures
        r == spec_can_perturb(option, direction, options),
{
    match (option, direction) {
        (SAOption::InitialTemperature, Direction::Positive) => options.initial_temperature <= u8::MAX
            - 5,
        (SAOption::InitialTemperature, Direction::Negative) => options.initial_temperature >= 5,
        (SAOption::MaxIterationsSa, Direction::Positive) => options.max_iterations_sa <= u64::MAX
            - 500,
        (SAOption::MaxIterationsSa, Direction::Negative) => options.max_iterations_sa >= 500,
        (SAOption::MaxIterationsLs, Direction::Positive) => options.max_iterations_ls <= u64::MAX
            - 500,
        (SAOption::MaxIterationsLs, Direction::Negative) => options.max_iterations_ls >= 500,
        (SAOption::BestNSa, Direction::Positive) => options.n_best_sa < usize::MAX,
        (SAOption::BestNSa, Direction::Negative) => options.n_best_sa >= 1,
        (SAOption::BestNLs, Direction::Positive) => options.n_best_ls < usize::MAX,
        (SAOption::BestNLs, Direction::Negative) => options.n_best_ls >= 1,
        _ => true,
    }
}

/// Whether every parameter can be perturbed both ways within the limits of
/// the machine.
#[verifier::when_used_as_spec(spec_can_probe)]
pub fn can_probe(options: SAOptions) -> (r: bool)
    ensures
        r == spec_can_probe(options),
{
    let possible = 5 <= options.initial_temperature && options.initial_temperature <= u8::MAX - 5
        && 500 <= options.max_iterations_sa && options.max_iterations_sa <= u64::MAX - 500 && 500
        <= options.max_iterations_ls && options.max_iterations_ls <= u64::MAX - 500 && 1
        <= options.n_best_sa && options.n_best_sa < usize::MAX && 1 <= options.n_best_ls
        && options.n_best_ls < usize::MAX;
    proof {
        if !possible {
            assert(!spec_can_perturb(SAOption::InitialTemperature, Direction::Positive, options)
                || !spec_can_perturb(SAOption::InitialTemperature, Direction::Negative, options)
                || !spec_can_perturb(SAOption::MaxIterationsSa, Direction::Positive, options)
                || !spec_can_perturb(SAOption::MaxIterationsSa, Direction::Negative, options)
                || !spec_can_perturb(SAOption::MaxIterationsLs, Direction::Positive, options)
                || !spec_can_perturb(SAOption::MaxIterationsLs, Direction::Negative, options)
                || !spec_can_perturb(SAOption::BestNSa, Direction::Positive, options)
                || !spec_can_perturb(SAOption::BestNSa, Direction::Negative, options)
                || !spec_can_perturb(SAOption::BestNLs, Direction::Positive, options)
                || !spec_can_perturb(SAOption::BestNLs, Direction::Negative, options));
        }
    }
    possible
}

/// The default options with the parameter `option` set to its value in
/// `options`, perturbed in the direction `direction`.
pub fn perturb_option<C: Fn(Expression) -> Scalar>(
    option: SAOption,
    direction: Direction,
    options: SAOptions,
    calculate: &C,
) -> (r: SAOptions)
    requires
        calculates_all(calculate),
        can_perturb(option, direction, options),
    ensures
        perturbed(calculate, option, direction, options, r),
{
    let default = SAOptions::default();
    let fiftieth = Scalar { bits: 0x3F94_7AE1_47AE_147B };
    let tenth = Scalar { bits: 0x3FB9_9999_9999_999A };
    let ten = Scalar { bits: 0x4024_0000_0000_0000 };
    match option {
        SAOption::InitialTemperature => match direction {
            Direction::Positive => SAOptions {
                initial_temperature: options.initial_temperature + 5,
                ..default
            },
            Direction::Negative => SAOptions {
                initial_temperature: options.initial_temperature - 5,
                ..default
            },
        },
        SAOption::AnnealingSchedule => match direction {
            Direction::Positive => SAOptions {
                annealing_schedule: calculate(
                    Expression::Sum(options.annealing_schedule, fiftieth),
                ),
                ..default
            },
            Direction::Negative => SAOptions {
                annealing_schedule: calculate(
                    Expression::Difference(options.annealing_schedule, fiftieth),
                ),
                ..default
            },
        },
        SAOption::MaxIterationsSa => match direction {
            Direction::Positive => SAOptions {
                max_iterations_sa: options.max_iterations_sa + 500,
                ..default
            },
            Direction::Negative => SAOptions {
                max_iterations_sa: options.max_iterations_sa - 500,
                ..default
            },
        },
        SAOption::MaxIterationsLs => match direction {
            Direction::Positive => SAOptions {
                max_iterations_ls: options.max_iterations_ls + 500,
                ..default
            },
            Direction::Negative => SAOptions {
                max_iterations_ls: options.max_iterations_ls - 500,
                ..default
            },
        },
        SAOption::InitialStepSizeSa => match direction {
            Direction::Positive => SAOptions {
                initial_step_size_sa: calculate(
                    Expression::Sum(options.initial_step_size_sa, tenth),
                ),
                ..default
            },
            Direction::Negative => SAOptions {
                initial_step_size_sa: calculate(
                    Expression::Product(options.initial_step_size_sa, tenth),
                ),
                ..default
            },
        },
        SAOption::InitialStepSizeLs => match direction {
            Direction::Positive => SAOptions {
                initial_step_size_ls: calculate(
                    Expression::Sum(options.initial_step_size_ls, tenth),
                ),
                ..default
            },
            Direction::Negative => SAOptions {
                initial_step_size_ls: calculate(
                    Expression::Product(options.initial_step_size_ls, tenth),
                ),
                ..default
            },
        },
        SAOption::MinTemp => match direction {
            Direction::Positive => SAOptions {
                min_temp: calculate(Expression::Sum(options.min_temp, ten)),
                ..default
            },
            Direction::Negative => SAOptions {
                min_temp: calculate(Expression::Difference(options.min_temp, ten)),
                ..default
            },
        },
        SAOption::BestNSa => match direction {
            Direction::Positive => SAOptions { n_best_sa: options.n_best_sa + 1, ..default },
            Direction::Negative => SAOptions { n_best_sa: options.n_best_sa - 1, ..default },
        },
        SAOption::BestNLs => match direction {
            Direction::Positive => SAOptions { n_best_ls: options.n_best_ls + 1, ..default },
            Direction::Negative => SAOptions { n_best_ls: options.n_best_ls - 1, ..default },
        },
    }
}

/// Whether `change` is what comparing two runs with the value `base` of an
/// earlier run may give: one with the value `raised` at its minimum and one
/// with the value `lowered`.
///
/// The parameter is to rise if the raised run falls below `base` by more
/// than the lowered one, and to fall otherwise. The response is the larger
/// of the two falls.
pub open spec fn compared_with_base<C: Fn(Expression) -> Scalar>(
    calculate: &C,
    base: Scalar,
    raised: Scalar,
    lowered: Scalar,
    change: OptionValue,
) -> bool {
    exists|raised_fall: Scalar, lowered_fall: Scalar|
        {
            &&& #[trigger] calculated(calculate, Expression::Difference(base, raised), raised_fall)
            &&& #[trigger] calculated(calculate, Expression::Difference(base, lowered), lowered_fall)
            &&& change.direction == if lowered_fall.lt(raised_fall) {
                Direction::Positive
            } else {
                Direction::Negative
            }
            &&& change.option_diff == raised_fall.max(lowered_fall)
        }
}

/// Whether `change` is what comparing two runs with the known minimum
/// `reference` of the function may give: one with the value `raised` at its
/// minimum and one with the value `lowered`.
///
/// The parameter is to rise if the raised run misses the known minimum by
/// less, as a signed difference, than the lowered one, and to fall
/// otherwise. The response is the larger of the two magnitudes by which the
/// runs miss the known minimum.
pub open spec fn compared<C: Fn(Expression) -> Scalar>(
    calculate: &C,
    reference: Scalar,
    raised: Scalar,
    lowered: Scalar,
    change: OptionValue,
) -> bool {
    exists|raised_miss: Scalar, lowered_miss: Scalar|
        {
            &&& #[trigger] calculated(calculate, Expression::Difference(reference, raised), raised_miss)
            &&& #[trigger] calculated(
                calculate,
                Expression::Difference(reference, lowered),
                lowered_miss,
            )
            &&& change.direction == if lowered_miss.lt(raised_miss) {
                Direction::Positive
            } else {
                Direction::Negative
            }
            &&& change.option_diff == raised_miss.abs().max(lowered_miss.abs())
        }
}

/// Compares a run whose minimum has the value `raised` with one whose
/// minimum has the value `lowered`, both of the parameter `option`, by how
/// far they miss the known minimum `reference`.
pub fn compare_runs<C: Fn(Expression) -> Scalar>(
    option: SAOption,
    reference: Scalar,
    raised: Scalar,
    lowered: Scalar,
    calculate: &C,
) -> (r: OptionValue)
    requires
        calculates_all(calculate),
    ensures
        r.option == option,
        compared(calculate, reference, raised, lowered, r),
{
    let raised_miss = calculate(Expression::Difference(reference, raised));
    let lowered_miss = calculate(Expression::Difference(reference, lowered));
    let direction = if lowered_miss.lt(raised_miss) {
        Direction::Positive
    } else {
        Direction::Negative
    };
    let option_diff = raised_miss.abs().max(lowered_miss.abs());
    proof {
        assert(calculated(calculate, Expression::Difference(reference, raised), raised_miss));
        assert(calculated(calculate, Expression::Difference(reference, lowered), lowered_miss));
    }
    OptionValue { option, option_diff, direction }
}

/// Compares a run whose minimum has the value `raised` with one whose
/// minimum has the value `lowered`, both of the parameter `option`, by how
/// far they fall below the value `base` of an earlier run.
pub fn compare_runs_with_base<C: Fn(Expression) -> Scalar>(
    option: SAOption,
    base: Scalar,
    raised: Scalar,
    lowered: Scalar,
    calculate: &C,
) -> (r: OptionValue)
    requires
        calculates_all(calculate),
    ensures
        r.option == option,
        compared_with_base(calculate, base, raised, lowered, r),
{
    let raised_fall = calculate(Expression::Difference(base, raised));
    let lowered_fall = calculate(Expression::Difference(base, lowered));
    let direction = if lowered_fall.lt(raised_fall) {
        Direction::Positive
    } else {
        Direction::Negative
    };
    let option_diff = raised_fall.max(lowered_fall);
    proof {
        assert(calculated(calculate, Expression::Difference(base, raised), raised_fall));
        assert(calculated(calculate, Expression::Difference(base, lowered), lowered_fall));
    }
    OptionValue { option, option_diff, direction }
}

/// Whether `result` is what probing the parameter `option` may give when
/// the two runs are made under `raised_options` and `lowered_options` and
/// hand back `raised` and `lowered`.
///
/// Simulated annealing is run under the default options with the parameter
/// perturbed up, and then with it perturbed down; the probe fails with the
/// error of the first run that fails. The two runs of the step of the local
/// search are compared against the known minimum of the function of the
/// problem, those of every other parameter against `base`.
pub open spec fn probed_with<
    E: Fn(&Vec<Scalar>) -> Scalar,
    S: Fn(&[u8; 16], u128, Scalar, Scalar) -> Scalar,
    C: Fn(Expression) -> Scalar,
>(
    evaluate: &E,
    sample: &S,
    calculate: &C,
    problem: BBOBProblem,
    option: SAOption,
    base: Scalar,
    options: SAOptions,
    raised_options: SAOptions,
    lowered_options: SAOptions,
    raised: Result<Candidate, SAError>,
    lowered: Result<Candidate, SAError>,
    result: Result<OptionValue, SAError>,
) -> bool {
    &&& perturbed(calculate, option, Direction::Positive, options, raised_options)
    &&& perturbed(calculate, option, Direction::Negative, options, lowered_options)
    &&& sa_ran(evaluate, sample, calculate, problem, raised_options, raised)
    &&& match raised {
        Err(error) => result == Err::<OptionValue, SAError>(error),
        Ok(raised_minimum) => {
            &&& sa_ran(evaluate, sample, calculate, problem, lowered_options, lowered)
            &&& match lowered {
                Err(error) => result == Err::<OptionValue, SAError>(error),
                Ok(lowered_minimum) => {
                    &&& result is Ok
                    &&& result.unwrap().option == option
                    &&& if option == SAOption::InitialStepSizeLs {
                        compared(
                            calculate,
                            problem.name.spec_global_minimum(),
                            raised_minimum.value,
                            lowered_minimum.value,
                            result.unwrap(),
                        )
                    } else {
                        compared_with_base(
                            calculate,
                            base,
                            raised_minimum.value,
                            lowered_minimum.value,
                            result.unwrap(),
                        )
                    }
                },
            }
        },
    }
}

/// Whether `result` is what probing the parameter `option` may give, when
/// the parameters stand at their values in `options` and an earlier run had
/// the value `base`.
pub open spec fn probed<
    E: Fn(&Vec<Scalar>) -> Scalar,
    S: Fn(&[u8; 16], u128, Scalar, Scalar) -> Scalar,
    C: Fn(Expression) -> Scalar,
>(
    evaluate: &E,
    sample: &S,
    calculate: &C,
    problem: BBOBProblem,
    option: SAOption,
    base: Scalar,
    options: SAOptions,
    result: Result<OptionValue, SAError>,
) -> bool {
    exists|
        raised_options: SAOptions,
        lowered_options: SAOptions,
        raised: Result<Candidate, SAError>,
        lowered: Result<Candidate, SAError>,
    | #[trigger]
        probed_with(
            evaluate,
            sample,
            calculate,
            problem,
            option,
            base,
            options,
            raised_options,
            lowered_options,
            raised,
            lowered,
            result,
        )
}

/// Whether the two runs that probe the parameter `option` move along no more
/// dimensions than the problem has: the default number of dimensions, and
/// for the dimensions of a phase one more than their value in `options`.
pub open spec fn fits_problem(option: SAOption, options: SAOptions, problem: BBOBProblem) -> bool {
    &&& MOST_DIMENSIONS <= problem.input_dimensions
    &&& option == SAOption::BestNSa ==> options.n_best_sa + 1 <= problem.input_dimensions
    &&& option == SAOption::BestNLs ==> options.n_best_ls + 1 <= problem.input_dimensions
}

/// Probes the parameter `option`: reruns simulated annealing under the
/// default options with the parameter perturbed up and down, and compares the
/// two runs. Fails if a run fails; none does if neither moves along more
/// dimensions than the problem has.
pub fn get_option_change<
    E: Fn(&Vec<Scalar>) -> Scalar,
    S: Fn(&[u8; 16], u128, Scalar, Scalar) -> Scalar,
    C: Fn(Expression) -> Scalar,
>(
    option: SAOption,
    base_value: Scalar,
    options: SAOptions,
    problem: &BBOBProblem,
    evaluate: &E,
    sample: &S,
    calculate: &C,
) -> (r: Result<OptionValue, SAError>)
    requires
        evaluates_all(evaluate),
        samples_all(sample),
        calculates_all(calculate),
        can_perturb(option, Direction::Positive, options),
        can_perturb(option, Direction::Negative, options),
    ensures
        probed(evaluate, sample, calculate, *problem, option, base_value, options, r),
        fits_problem(option, options, *problem) ==> r is Ok,
{
    let raised_options = perturb_option(option, Direction::Positive, options, calculate);
    let lowered_options = perturb_option(option, Direction::Negative, options, calculate);
    let raised = run_sa(problem, raised_options, evaluate, sample, calculate);
    let ghost raised_view = minimum_view(raised);
    let pos_val = match raised {
        Ok(min) => min,
        Err(error) => {
            let result = Err(error);
            proof {
                assert(probed_with(
                    evaluate,
                    sample,
                    calculate,
                    *problem,
                    option,
                    base_value,
                    options,
                    raised_options,
                    lowered_options,
                    raised_view,
                    raised_view,
                    result,
                ));
            }
            return result;
        },
    };
    let lowered = run_sa(problem, lowered_options, evaluate, sample, calculate);
    let ghost lowered_view = minimum_view(lowered);
    let neg_val = match lowered {
        Ok(min) => min,
        Err(error) => {
            let result = Err(error);
            proof {
                assert(probed_with(
                    evaluate,
                    sample,
                    calculate,
                    *problem,
                    option,
                    base_value,
                    options,
                    raised_options,
                    lowered_options,
                    raised_view,
                    lowered_view,
                    result,
                ));
            }
            return result;
        },
    };
    let change = match option {
        SAOption::InitialStepSizeLs => compare_runs(
            option,
            problem.name.global_minimum(),
            pos_val.value,
            neg_val.value,
            calculate,
        ),
        _ => compare_runs_with_base(option, base_value, pos_val.value, neg_val.value, calculate),
    };
    let result = Ok(change);
    proof {
        assert(probed_with(
            evaluate,
            sample,
            calculate,
            *problem,
            option,
            base_value,
            options,
            raised_options,
            lowered_options,
            raised_view,
            lowered_view,
            result,
        ));
    }
    result
}

/// Probes the initial temperature, which stands at `initial_temp`.
pub fn get_initial_temp_change<
    E: Fn(&Vec<Scalar>) -> Scalar,
    S: Fn(&[u8; 16], u128, Scalar, Scalar) -> Scalar,
    C: Fn(Expression) -> Scalar,
>(
    base_value: Scalar,
    initial_temp: u8,
    problem: &BBOBProblem,
    evaluate: &E,
    sample: &S,
    calculate: &C,
) -> (r: Result<OptionValue, SAError>)
    requires
        evaluates_all(evaluate),
        samples_all(sample),
        calculates_all(calculate),
        5 <= initial_temp <= u8::MAX - 5,
    ensures
        probed(
            evaluate,
            sample,
            calculate,
            *problem,
            SAOption::InitialTemperature,
            base_value,
            SAOptions { initial_temperature: initial_temp, ..SAOptions::spec_default() },
            r,
        ),
        MOST_DIMENSIONS <= problem.input_dimensions ==> r is Ok,
{
    get_option_change(
        SAOption::InitialTemperature,
        base_value,
        SAOptions { initial_temperature: initial_temp, ..SAOptions::default() },
        problem,
        evaluate,
        sample,
        calculate,
    )
}

/// Probes the annealing schedule, which stands at `current_schedule`.
pub fn get_annealing_schedule_change<
    E: Fn(&Vec<Scalar>) -> Scalar,
    S: Fn(&[u8; 16], u128, Scalar, Scalar) -> Scalar,
    C: Fn(Expression) -> Scalar,
>(
    base_value: Scalar,
    current_schedule: Scalar,
    problem: &BBOBProblem,
    evaluate: &E,
    sample: &S,
    calculate: &C,
) -> (r: Result<OptionValue, SAError>)
    requires
        evaluates_all(evaluate),
        samples_all(sample),
        calculates_all(calculate),
    ensures
        probed(
            evaluate,
            sample,
            calculate,
            *problem,
            SAOption::AnnealingSchedule,
            base_value,
            SAOptions { annealing_schedule: current_schedule, ..SAOptions::spec_default() },
            r,
        ),
        MOST_DIMENSIONS <= problem.input_dimensions ==> r is Ok,
{
    get_option_change(
        SAOption::AnnealingSchedule,
        base_value,
        SAOptions { annealing_schedule: current_schedule, ..SAOptions::default() },
        problem,
        evaluate,
        sample,
        calculate,
    )
}

/// Probes the iterations of the global phase, which stand at `current_iter`.
pub fn get_max_iter_sa_change<
    E: Fn(&Vec<Scalar>) -> Scalar,
    S: Fn(&[u8; 16], u128, Scalar, Scalar) -> Scalar,
    C: Fn(Expression) -> Scalar,
>(
    base_value: Scalar,
    current_iter: u64,
    problem: &BBOBProblem,
    evaluate: &E,
    sample: &S,
    calculate: &C,
) -> (r: Result<OptionValue, SAError>)
    requires
        evaluates_all(evaluate),
        samples_all(sample),
        calculates_all(calculate),
        500 <= current_iter <= u64::MAX - 500,
    ensures
        probed(
            evaluate,
            sample,
            calculate,
            *problem,
            SAOption::MaxIterationsSa,
            base_value,
            SAOptions { max_iterations_sa: current_iter, ..SAOptions::spec_default() },
            r,
        ),
        MOST_DIMENSIONS <= problem.input_dimensions ==> r is Ok,
{
    get_option_change(
        SAOption::MaxIterationsSa,
        base_value,
        SAOptions { max_iterations_sa: current_iter, ..SAOptions::default() },
        problem,
        evaluate,
        sample,
        calculate,
    )
}

/// Probes the iterations of the local search, which stand at `current_iter`.
pub fn get_max_iter_ls_change<
    E: Fn(&Vec<Scalar>) -> Scalar,
    S: Fn(&[u8; 16], u128, Scalar, Scalar) -> Scalar,
    C: Fn(Expression) -> Scalar,
>(
    base_value: Scalar,
    current_iter: u64,
    problem: &BBOBProblem,
    evaluate: &E,
    sample: &S,
    calculate: &C,
) -> (r: Result<OptionValue, SAError>)
    requires
        evaluates_all(evaluate),
        samples_all(sample),
        calculates_all(calculate),
        500 <= current_iter <= u64::MAX - 500,
    ensures
        probed(
            evaluate,
            sample,
            calculate,
            *problem,
            SAOption::MaxIterationsLs,
            base_value,
            SAOptions { max_iterations_ls: current_iter, ..SAOptions::spec_default() },
            r,
        ),
        MOST_DIMENSIONS <= problem.input_dimensions ==> r is Ok,
{
    get_option_change(
        SAOption::MaxIterationsLs,
        base_value,
        SAOptions { max_iterations_ls: current_iter, ..SAOptions::default() },
        problem,
        evaluate,
        sample,
        calculate,
    )
}

/// Probes the step of the global phase, which stands at `initial_step`.
pub fn get_initial_step_change_sa<
    E: Fn(&Vec<Scalar>) -> Scalar,
    S: Fn(&[u8; 16], u128, Scalar, Scalar) -> Scalar,
    C: Fn(Expression) -> Scalar,
>(
    base_value: Scalar,
    initial_step: Scalar,
    problem: &BBOBProblem,
    evaluate: &E,
    sample: &S,
    calculate: &C,
) -> (r: Result<OptionValue, SAError>)
    requires
        evaluates_all(evaluate),
        samples_all(sample),
        calculates_all(calculate),
    ensures
        probed(
            evaluate,
            sample,
            calculate,
            *problem,
            SAOption::InitialStepSizeSa,
            base_value,
            SAOptions { initial_step_size_sa: initial_step, ..SAOptions::spec_default() },
            r,
        ),
        MOST_DIMENSIONS <= problem.input_dimensions ==> r is Ok,
{
    get_option_change(
        SAOption::InitialStepSizeSa,
        base_value,
        SAOptions { initial_step_size_sa: initial_step, ..SAOptions::default() },
        problem,
        evaluate,
        sample,
        calculate,
    )
}

/// Probes the step of the local search, which stands at `initial_step`.
pub fn get_initial_step_change_ls<
    E: Fn(&Vec<Scalar>) -> Scalar,
    S: Fn(&[u8; 16], u128, Scalar, Scalar) -> Scalar,
    C: Fn(Expression) -> Scalar,
>(
    base_value: Scalar,
    initial_step: Scalar,
    problem: &BBOBProblem,
    evaluate: &E,
    sample: &S,
    calculate: &C,
) -> (r: Result<OptionValue, SAError>)
    requires
        evaluates_all(evaluate),
        samples_all(sample),
        calculates_all(calculate),
    ensures
        probed(
            evaluate,
            sample,
            calculate,
            *problem,
            SAOption::InitialStepSizeLs,
            base_value,
            SAOptions { initial_step_size_ls: initial_step, ..SAOptions::spec_default() },
            r,
        ),
        MOST_DIMENSIONS <= problem.input_dimensions ==> r is Ok,
{
    get_option_change(
        SAOption::InitialStepSizeLs,
        base_value,
        SAOptions { initial_step_size_ls: initial_step, ..SAOptions::default() },
        problem,
        evaluate,
        sample,
        calculate,
    )
}

/// Probes the minimum temperature, which stands at `current_temp`.
pub fn get_min_temp_change<
    E: Fn(&Vec<Scalar>) -> Scalar,
    S: Fn(&[u8; 16], u128, Scalar, Scalar) -> Scalar,
    C: Fn(Expression) -> Scalar,
>(
    base_value: Scalar,
    current_temp: Scalar,
    problem: &BBOBProblem,
    evaluate: &E,
    sample: &S,
    calculate: &C,
) -> (r: Result<OptionValue, SAError>)
    requires
        evaluates_all(evaluate),
        samples_all(sample),
        calculates_all(calculate),
    ensures
        probed(
            evaluate,
            sample,
            calculate,
            *problem,
            SAOption::MinTemp,
            base_value,
            SAOptions { min_temp: current_temp, ..SAOptions::spec_default() },
            r,
        ),
        MOST_DIMENSIONS <= problem.input_dimensions ==> r is Ok,
{
    get_option_change(
        SAOption::MinTemp,
        base_value,
        SAOptions { min_temp: current_temp, ..SAOptions::default() },
        problem,
        evaluate,
        sample,
        calculate,
    )
}

/// Probes the dimensions of the global phase, which stand at `current_best`.
pub fn get_best_n_sa_change<
    E: Fn(&Vec<Scalar>) -> Scalar,
    S: Fn(&[u8; 16], u128, Scalar, Scalar) -> Scalar,
    C: Fn(Expression) -> Scalar,
>(
    base_value: Scalar,
    current_best: usize,
    problem: &BBOBProblem,
    evaluate: &E,
    sample: &S,
    calculate: &C,
) -> (r: Result<OptionValue, SAError>)
    requires
        evaluates_all(evaluate),
        samples_all(sample),
        calculates_all(calculate),
        1 <= current_best < usize::MAX,
    ensures
        probed(
            evaluate,
            sample,
            calculate,
            *problem,
            SAOption::BestNSa,
            base_value,
            SAOptions { n_best_sa: current_best, ..SAOptions::spec_default() },
            r,
        ),
        MOST_DIMENSIONS <= problem.input_dimensions && current_best + 1 <= problem.input_dimensions ==> r is Ok,
{
    get_option_change(
        SAOption::BestNSa,
        base_value,
        SAOptions { n_best_sa: current_best, ..SAOptions::default() },
        problem,
        evaluate,
        sample,
        calculate,
    )
}

/// Probes the dimensions of the local search, which stand at `current_best`.
pub fn get_best_n_ls_change<
    E: Fn(&Vec<Scalar>) -> Scalar,
    S: Fn(&[u8; 16], u128, Scalar, Scalar) -> Scalar,
    C: Fn(Expression) -> Scalar,
>(
    base_value: Scalar,
    current_best: usize,
    problem: &BBOBProblem,
    evaluate: &E,
    sample: &S,
    calculate: &C,
) -> (r: Result<OptionValue, SAError>)
    requires
        evaluates_all(evaluate),
        samples_all(sample),
        calculates_all(calculate),
        1 <= current_best < usize::MAX,
    ensures
        probed(
            evaluate,
            sample,
            calculate,
            *problem,
            SAOption::BestNLs,
            base_value,
            SAOptions { n_best_ls: current_best, ..SAOptions::spec_default() },
            r,
        ),
        MOST_DIMENSIONS <= problem.input_dimensions && current_best + 1 <= problem.input_dimensions ==> r is Ok,
{
    get_option_change(
        SAOption::BestNLs,
        base_value,
        SAOptions { n_best_ls: current_best, ..SAOptions::default() },
        problem,
        evaluate,
        sample,
        calculate,
    )
}

/// Whether the probes of all parameters move along no more dimensions than
/// the problem has.
pub open spec fn all_fit_problem(options: SAOptions, problem: BBOBProblem) -> bool {
    &&& MOST_DIMENSIONS <= problem.input_dimensions
    &&& options.n_best_sa + 1 <= problem.input_dimensions
    &&& options.n_best_ls + 1 <= problem.input_dimensions
}

/// Whether `result` is what probing the parameters one at a time may give,
/// when they stand at their values in `options`, an earlier run had the value
/// `base`, and `probes` is what the probes that succeeded gave.
///
/// The parameters are probed in the order in which they are declared. If a
/// probe fails, no parameter is probed after it and its error is handed
/// back. Otherwise the probes are ranked from the most responsive to the
/// least, those of the same response in the order in which the parameters
/// are declared.
pub open spec fn value_changes_from<
    E: Fn(&Vec<Scalar>) -> Scalar,
    S: Fn(&[u8; 16], u128, Scalar, Scalar) -> Scalar,
    C: Fn(Expression) -> Scalar,
>(
    evaluate: &E,
    sample: &S,
    calculate: &C,
    problem: BBOBProblem,
    base: Scalar,
    options: SAOptions,
    probes: Seq<OptionValue>,
    result: Result<Seq<OptionValue>, SAError>,
) -> bool {
    &&& probes.len() <= SAOption::all().len()
    &&& forall|k: int|
        0 <= k < probes.len() ==> probed(
            evaluate,
            sample,
            calculate,
            problem,
            SAOption::all()[k],
            base,
            options,
            Ok(#[trigger] probes[k]),
        )
    &&& match result {
        Ok(ranking) => probes.len() == SAOption::all().len() && is_sorting_of(probes, ranking),
        Err(error) => probes.len() < SAOption::all().len() && probed(
            evaluate,
            sample,
            calculate,
            problem,
            SAOption::all()[probes.len() as int],
            base,
            options,
            Err(error),
        ),
    }
}

/// Whether `result` is what probing the parameters one at a time may give.
pub open spec fn value_changes<
    E: Fn(&Vec<Scalar>) -> Scalar,
    S: Fn(&[u8; 16], u128, Scalar, Scalar) -> Scalar,
    C: Fn(Expression) -> Scalar,
>(
    evaluate: &E,
    sample: &S,
    calculate: &C,
    problem: BBOBProblem,
    base: Scalar,
    options: SAOptions,
    result: Result<Seq<OptionValue>, SAError>,
) -> bool {
    exists|probes: Seq<OptionValue>| #[trigger]
        value_changes_from(evaluate, sample, calculate, problem, base, options, probes, result)
}

/// What the ranking of the probes hands back, as mathematics sees it.
pub open spec fn ranking_view(result: Result<Vec<OptionValue>, SAError>) -> Result<
    Seq<OptionValue>,
    SAError,
> {
    match result {
        Ok(ranking) => Ok(ranking@),
        Err(error) => Err(error),
    }
}

/// Probes the parameters one at a time and ranks them by how much the
/// outcome responds to them, the most responsive first. Fails with the error
/// of the first probe that fails.
pub fn get_value_changes<
    E: Fn(&Vec<Scalar>) -> Scalar,
    S: Fn(&[u8; 16], u128, Scalar, Scalar) -> Scalar,
    C: Fn(Expression) -> Scalar,
>(
    base_value: Scalar,
    options: SAOptions,
    problem: &BBOBProblem,
    evaluate: &E,
    sample: &S,
    calculate: &C,
) -> (r: Result<Vec<OptionValue>, SAError>)
    requires
        evaluates_all(evaluate),
        samples_all(sample),
        calculates_all(calculate),
        can_probe(options),
    ensures
        value_changes(evaluate, sample, calculate, *problem, base_value, options, ranking_view(r)),
        all_fit_problem(options, *problem) ==> r is Ok,
        r is Ok ==> r.unwrap().len() == SAOption::all().len(),
{
    let mut option_value_changes: Vec<OptionValue> = Vec::new();
    let all_options = SAOption::iterator();
    let mut index: usize = 0;
    while index < all_options.len()
        invariant
            index <= all_options.len(),
            all_options@ == SAOption::all(),
            evaluates_all(evaluate),
            samples_all(sample),
            calculates_all(calculate),
            can_probe(options),
            option_value_changes.len() == index,
            forall|k: int|
                0 <= k < index ==> probed(
                    evaluate,
                    sample,
                    calculate,
                    *problem,
                    SAOption::all()[k],
                    base_value,
                    options,
                    Ok(#[trigger] option_value_changes[k]),
                ),
        decreases all_options.len() - index,
    {
        let option = all_options[index];
        proof {
            assert(spec_can_perturb(option, Direction::Positive, options));
            assert(spec_can_perturb(option, Direction::Negative, options));
        }
        match get_option_change(option, base_value, options, problem, evaluate, sample, calculate) {
            Ok(change) => option_value_changes.push(change),
            Err(error) => {
                let result = Err(error);
                proof {
                    assert(value_changes_from(
                        evaluate,
                        sample,
                        calculate,
                        *problem,
                        base_value,
                        options,
                        option_value_changes@,
                        ranking_view(result),
                    ));
                }
                return result;
            },
        }
        index += 1;
    }
    let ghost probes = option_value_changes@;
    let ranked = sort_descending(option_value_changes);
    let result = Ok(ranked);
    proof {
        assert(value_changes_from(
            evaluate,
            sample,
            calculate,
            *problem,
            base_value,
            options,
            probes,
            ranking_view(result),
        ));
    }
    result
}

/// Whether every parameter can be moved either way within the limits of the
/// machine.
pub open spec fn spec_can_adjust_all(options: SAOptions) -> bool {
    forall|change: OptionValue| #[trigger] spec_can_adjust(options, change)
}

/// Whether every parameter can be moved either way within the limits of the
/// machine.
#[verifier::when_used_as_spec(spec_can_adjust_all)]
pub fn can_adjust_all(options: SAOptions) -> (r: bool)
    ensures
        r == spec_can_adjust_all(options),
{
    let possible = 2 <= options.initial_temperature && options.initial_temperature <= u8::MAX - 2
        && 500 <= options.max_iterations_sa && options.max_iterations_sa <= u64::MAX - 500 && 1000
        <= options.max_iterations_ls && options.max_iterations_ls <= u64::MAX - 1000 && 1
        <= options.n_best_sa && 1 <= options.n_best_ls;
    proof {
        let diff = Scalar::zero();
        let up = Direction::Positive;
        let down = Direction::Negative;
        if !possible {
            assert(!spec_can_adjust(
                options,
                OptionValue { option: SAOption::InitialTemperature, option_diff: diff, direction: up },
            ) || !spec_can_adjust(
                options,
                OptionValue {
                    option: SAOption::InitialTemperature,
                    option_diff: diff,
                    direction: down,
                },
            ) || !spec_can_adjust(
                options,
                OptionValue { option: SAOption::MaxIterationsSa, option_diff: diff, direction: up },
            ) || !spec_can_adjust(
                options,
                OptionValue { option: SAOption::MaxIterationsSa, option_diff: diff, direction: down },
            ) || !spec_can_adjust(
                options,
                OptionValue { option: SAOption::MaxIterationsLs, option_diff: diff, direction: up },
            ) || !spec_can_adjust(
                options,
                OptionValue { option: SAOption::MaxIterationsLs, option_diff: diff, direction: down },
            ) || !spec_can_adjust(
                options,
                OptionValue { option: SAOption::BestNSa, option_diff: diff, direction: down },
            ) || !spec_can_adjust(
                options,
                OptionValue { option: SAOption::BestNLs, option_diff: diff, direction: down },
            ));
        }
    }
    possible
}

/// Whether `result` is what one round of the probe may make of
/// `current_options`, given what the run under them, `base`, and the ranking
/// of the probes, `ranking`, handed back.
///
/// The round fails with the error of the run, or else with that of the
/// ranking. Otherwise the parameter that the outcome responds to most has
/// moved its way, and the function is that of the problem.
pub open spec fn tuned_with<
    E: Fn(&Vec<Scalar>) -> Scalar,
    S: Fn(&[u8; 16], u128, Scalar, Scalar) -> Scalar,
    C: Fn(Expression) -> Scalar,
>(
    evaluate: &E,
    sample: &S,
    calculate: &C,
    problem: BBOBProblem,
    current_options: SAOptions,
    base: Result<Candidate, SAError>,
    ranking: Result<Seq<OptionValue>, SAError>,
    result: Result<SAOptions, SAError>,
) -> bool {
    &&& sa_ran(evaluate, sample, calculate, problem, current_options, base)
    &&& match base {
        Err(error) => result == Err::<SAOptions, SAError>(error),
        Ok(minimum) => {
            &&& value_changes(
                evaluate,
                sample,
                calculate,
                problem,
                minimum.value,
                current_options,
                ranking,
            )
            &&& match ranking {
                Err(error) => result == Err::<SAOptions, SAError>(error),
                Ok(changes) => {
                    &&& result is Ok
                    &&& exists|moved: SAOptions|
                        {
                            &&& #[trigger] adjusted(calculate, current_options, changes[0], moved)
                            &&& result.unwrap() == (SAOptions { function: problem.name, ..moved })
                        }
                },
            }
        },
    }
}

/// Whether `result` is what one round of the probe may make of
/// `current_options`.
pub open spec fn tuned<
    E: Fn(&Vec<Scalar>) -> Scalar,
    S: Fn(&[u8; 16], u128, Scalar, Scalar) -> Scalar,
    C: Fn(Expression) -> Scalar,
>(
    evaluate: &E,
    sample: &S,
    calculate: &C,
    problem: BBOBProblem,
    current_options: SAOptions,
    result: Result<SAOptions, SAError>,
) -> bool {
    exists|base: Result<Candidate, SAError>, ranking: Result<Seq<OptionValue>, SAError>| #[trigger]
        tuned_with(evaluate, sample, calculate, problem, current_options, base, ranking, result)
}

/// One round of the probe: runs simulated annealing under `current_options`,
/// probes the parameters, and moves the one that the outcome responds to
/// most. Fails if the run or a probe fails; none does if none moves along
/// more dimensions than the problem has.
pub fn get_optimal_params<
    E: Fn(&Vec<Scalar>) -> Scalar,
    S: Fn(&[u8; 16], u128, Scalar, Scalar) -> Scalar,
    C: Fn(Expression) -> Scalar,
>(
    problem: &BBOBProblem,
    current_options: SAOptions,
    evaluate: &E,
    sample: &S,
    calculate: &C,
) -> (r: Result<SAOptions, SAError>)
    requires
        evaluates_all(evaluate),
        samples_all(sample),
        calculates_all(calculate),
        can_probe(current_options),
        can_adjust_all(current_options),
    ensures
        tuned(evaluate, sample, calculate, *problem, current_options, r),
        all_fit_problem(current_options, *problem) ==> r is Ok,
{
    let run = run_sa(problem, current_options, evaluate, sample, calculate);
    let ghost base = minimum_view(run);
    let minimum = match run {
        Ok(minimum) => minimum,
        Err(error) => {
            let result = Err(error);
            proof {
                assert(tuned_with(
                    evaluate,
                    sample,
                    calculate,
                    *problem,
                    current_options,
                    base,
                    Err(error),
                    result,
                ));
            }
            return result;
        },
    };
    let min_value = minimum.value;
    let probes = get_value_changes(
        min_value,
        current_options,
        problem,
        evaluate,
        sample,
        calculate,
    );
    let ghost ranking = ranking_view(probes);
    let value_changes = match probes {
        Ok(value_changes) => value_changes,
        Err(error) => {
            let result = Err(error);
            proof {
                assert(tuned_with(
                    evaluate,
                    sample,
                    calculate,
                    *problem,
                    current_options,
                    base,
                    ranking,
                    result,
                ));
            }
            return result;
        },
    };
    let change = value_changes[0];
    proof {
        assert(spec_can_adjust(current_options, change));
    }
    let new_options = adjust_options(current_options, change, calculate);
    let result = Ok(SAOptions { function: problem.name, ..new_options });
    proof {
        assert(adjusted(calculate, current_options, value_changes@[0], new_options));
        assert(tuned_with(
            evaluate,
            sample,
            calculate,
            *problem,
            current_options,
            base,
            ranking,
            result,
        ));
    }
    result
}

} // verus!
