//! What the command line asks for, and which problems that means.

use vstd::prelude::*;
use crate::bbob::functions::{all_bbob_functions, BBOBFunctionType};

verus! {

/// The arguments of the firefly optimization command.
#[derive(Clone, Copy, Debug, PartialEq, Eq, Structural)]
pub struct CLIFireflyOptimizationArgs {
    pub mode: CLIFireflyOptimizationMode,
}

/// What the firefly optimization command is to optimize.
#[derive(Clone, Copy, Debug, PartialEq, Eq, Structural)]
pub enum CLIFireflyOptimizationMode {
    /// Optimize all 24 problems.
    AllProblems,
    /// Optimize a specific problem.
    OneProblem(CLIRunOneArgs),
}

/// The arguments for optimizing a specific problem.
#[derive(Clone, Copy, Debug, PartialEq, Eq, Structural)]
pub struct CLIRunOneArgs {
    /// What problem to run (1 to 24).
    pub problem_number: usize,
}

/// Why a command cannot run.
#[derive(Clone, Copy, Debug, PartialEq, Eq, Structural)]
pub enum CommandError {
    /// The problem number is not one of 1 to 24.
    InvalidProblemIndex,
}

impl CommandError {
    /// What the error says, as text.
    pub open spec fn spec_message(self) -> Seq<char> {
        "Invalid problem index (not in 1-24 range)."@
    }

    /// What the error says, as text.
    pub fn message(&self) -> (r: String)
        ensures
            r@ == self.spec_message(),
    {
        "Invalid problem index (not in 1-24 range).".to_owned()
    }
}

/// The problems that the arguments ask for: all 24 in the order of their
/// indices, or the one with the given number. A number that is not one of 1
/// to 24 is refused.
pub fn problems_to_run(args: CLIFireflyOptimizationArgs) -> (r: Result<
    Vec<BBOBFunctionType>,
    CommandError,
>)
    ensures
        match args.mode {
            CLIFireflyOptimizationMode::AllProblems => r is Ok && r.unwrap().len() == 24
                && forall|i: int|
                0 <= i < 24 ==> (#[trigger] r.unwrap()[i]).spec_index() == i + 1,
            CLIFireflyOptimizationMode::OneProblem(one) => if 1 <= one.problem_number <= 24 {
                r is Ok && r.unwrap()@ == seq![
                    BBOBFunctionType::spec_from_function_index(one.problem_number).unwrap(),
                ]
            } else {
                r == Err::<Vec<BBOBFunctionType>, CommandError>(CommandError::InvalidProblemIndex)
            },
        },
{
    match args.mode {
        CLIFireflyOptimizationMode::AllProblems => Ok(all_bbob_functions()),
        CLIFireflyOptimizationMode::OneProblem(one_args) => {
            match BBOBFunctionType::from_function_index(one_args.problem_number) {
                Some(bbob_function) => {
                    let mut problems: Vec<BBOBFunctionType> = Vec::with_capacity(1);
                    problems.push(bbob_function);
                    proof {
                        assert(problems@ =~= seq![bbob_function]);
                    }
                    Ok(problems)
                },
                None => Err(CommandError::InvalidProblemIndex),
            }
        },
    }
}

} // verus!
