//! The search interval of a problem and the facts about a problem that the
//! optimizers read.

use vstd::prelude::*;
use crate::bbob::functions::BBOBFunctionType;
use crate::scalar::Scalar;

verus! {

/// The number of dimensions in which every problem of the suite is searched.
pub const PROBLEM_DIMENSIONS: usize = 40;

/// A closed interval `[lower, upper]` of numbers, the same for every
/// dimension of a problem. `lower <= upper` always holds, so neither end is
/// not a number.
#[derive(Clone, Copy, Debug)]
pub struct Bounds {
    lower_bound: Scalar,
    upper_bound: Scalar,
}

impl Bounds {
    #[verifier::type_invariant]
    spec fn ordered(self) -> bool {
        self.lower_bound.le(self.upper_bound)
    }

    /// The lower end of the interval.
    pub closed spec fn lower(self) -> Scalar {
        self.lower_bound
    }

    /// The upper end of the interval.
    pub closed spec fn upper(self) -> Scalar {
        self.upper_bound
    }

    /// Whether `value` lies in the interval.
    pub open spec fn spec_contains(self, value: Scalar) -> bool {
        self.lower().le(value) && value.le(self.upper())
    }

    /// Whether every coordinate of `position` lies in the interval.
    pub open spec fn contains_all(self, position: Seq<Scalar>) -> bool {
        forall|k: int| 0 <= k < position.len() ==> self.spec_contains(#[trigger] position[k])
    }

    /// `value`, or the end of the interval that it lies beyond. What is not a
    /// number stays what it is.
    pub open spec fn spec_clamp(self, value: Scalar) -> Scalar {
        if value.lt(self.lower()) {
            self.lower()
        } else if self.upper().lt(value) {
            self.upper()
        } else {
            value
        }
    }

    /// The interval from `lower_bound` to `upper_bound`.
    pub fn new(lower_bound: Scalar, upper_bound: Scalar) -> (r: Bounds)
        requires
            lower_bound.le(upper_bound),
        ensures
            r.lower() == lower_bound,
            r.upper() == upper_bound,
    {
        Bounds { lower_bound, upper_bound }
    }

    /// The interval from `lower_bound` to `upper_bound`, unless the two are
    /// out of order or one of them is not a number.
    pub fn checked(lower_bound: Scalar, upper_bound: Scalar) -> (r: Option<Bounds>)
        ensures
            r is Some <==> lower_bound.le(upper_bound),
            r is Some ==> r.unwrap().lower() == lower_bound && r.unwrap().upper() == upper_bound,
    {
        if lower_bound.le(upper_bound) {
            Some(Bounds::new(lower_bound, upper_bound))
        } else {
            None
        }
    }

    /// The lower end of the interval.
    pub fn lower_bound(&self) -> (r: Scalar)
        ensures
            r == self.lower(),
            self.lower().le(self.upper()),
    {
        proof {
            use_type_invariant(self);
        }
        self.lower_bound
    }

    /// The upper end of the interval.
    pub fn upper_bound(&self) -> (r: Scalar)
        ensures
            r == self.upper(),
            self.lower().le(self.upper()),
    {
        proof {
            use_type_invariant(self);
        }
        self.upper_bound
    }

    /// Whether `value` lies in the interval. What is not a number lies in no
    /// interval.
    #[verifier::when_used_as_spec(spec_contains)]
    pub fn contains(self, value: Scalar) -> (r: bool)
        ensures
            r == self.spec_contains(value),
    {
        self.lower_bound.le(value) && value.le(self.upper_bound)
    }

    /// Brings `value` into the interval: a number below it becomes the lower
    /// end, one above it the upper end, and anything else is returned as it
    /// is.
    #[verifier::when_used_as_spec(spec_clamp)]
    pub fn clamp(self, value: Scalar) -> (r: Scalar)
        ensures
            r == self.spec_clamp(value),
            !value.is_nan() ==> self.spec_contains(r),
            self.spec_contains(value) ==> r == value,
    {
        proof {
            use_type_invariant(&self);
        }
        if value.lt(self.lower_bound) {
            self.lower_bound
        } else if self.upper_bound.lt(value) {
            self.upper_bound
        } else {
            value
        }
    }

    /// Brings every coordinate of `position` into the interval, each as
    /// [`Bounds::clamp`] does.
    pub fn clamp_all(&self, position: Vec<Scalar>) -> (r: Vec<Scalar>)
        ensures
            r.len() == position.len(),
            forall|k: int| 0 <= k < r.len() ==> #[trigger] r[k] == self.spec_clamp(position[k]),
            (forall|k: int| 0 <= k < position.len() ==> !(#[trigger] position[k]).is_nan())
                ==> self.contains_all(r@),
    {
        let mut clamped: Vec<Scalar> = Vec::with_capacity(position.len());
        let mut k: usize = 0;
        while k < position.len()
            invariant
                k <= position.len(),
                clamped.len() == k,
                forall|j: int| 0 <= j < k ==> #[trigger] clamped[j] == self.spec_clamp(position[j]),
                forall|j: int|
                    0 <= j < k && !position[j].is_nan() ==> self.spec_contains(#[trigger] clamped[j]),
            decreases position.len() - k,
        {
            clamped.push(self.clamp(position[k]));
            k += 1;
        }
        clamped
    }

    /// Whether every coordinate of `position` lies in the interval.
    pub fn contains_position(&self, position: &Vec<Scalar>) -> (r: bool)
        ensures
            r == self.contains_all(position@),
    {
        let mut k: usize = 0;
        while k < position.len()
            invariant
                k <= position.len(),
                forall|j: int| 0 <= j < k ==> self.spec_contains(#[trigger] position[j]),
            decreases position.len() - k,
        {
            if !self.contains(position[k]) {
                return false;
            }
            k += 1;
        }
        true
    }
}

/// Why a problem of the suite cannot be optimized.
#[derive(Clone, Copy, Debug, PartialEq, Eq, Structural)]
pub enum ProblemError {
    /// The problem does not have 40 dimensions.
    WrongDimensions,
    /// The problem has more than one objective.
    MultipleObjectives,
}

impl ProblemError {
    /// What the error says, as text.
    pub open spec fn spec_message(self) -> Seq<char> {
        match self {
            ProblemError::WrongDimensions => "Problem doesn't have 40 dimensions!"@,
            ProblemError::MultipleObjectives => "Problem has more than one objective!"@,
        }
    }

    /// What the error says, as text.
    pub fn message(&self) -> (r: String)
        ensures
            r@ == self.spec_message(),
    {
        let text: &str = match self {
            ProblemError::WrongDimensions => "Problem doesn't have 40 dimensions!",
            ProblemError::MultipleObjectives => "Problem has more than one objective!",
        };
        text.to_owned()
    }
}

/// What the optimizers know of a problem without evaluating it: which
/// function it is, how many coordinates a position has and where they lie.
#[derive(Clone, Copy, Debug)]
pub struct BBOBProblem {
    pub name: BBOBFunctionType,
    pub input_dimensions: usize,
    pub bounds: Bounds,
}

impl BBOBProblem {
    /// Accepts a problem of 40 dimensions and a single objective.
    ///
    /// `dimension` and `number_of_objectives` are what the suite reports of
    /// the problem. A wrong dimension is reported before a wrong number of
    /// objectives.
    pub fn from_problem_and_name(
        dimension: usize,
        number_of_objectives: usize,
        function_name: BBOBFunctionType,
        bounds: Bounds,
    ) -> (r: Result<BBOBProblem, ProblemError>)
        ensures
            dimension != PROBLEM_DIMENSIONS ==> r == Err::<BBOBProblem, ProblemError>(
                ProblemError::WrongDimensions,
            ),
            dimension == PROBLEM_DIMENSIONS && number_of_objectives > 1 ==> r == Err::<
                BBOBProblem,
                ProblemError,
            >(ProblemError::MultipleObjectives),
            dimension == PROBLEM_DIMENSIONS && number_of_objectives <= 1 ==> r == Ok::<
                BBOBProblem,
                ProblemError,
            >(BBOBProblem { name: function_name, input_dimensions: dimension, bounds }),
    {
        if dimension != PROBLEM_DIMENSIONS {
            return Err(ProblemError::WrongDimensions);
        }
        if number_of_objectives > 1 {
            return Err(ProblemError::MultipleObjectives);
        }
        Ok(BBOBProblem { name: function_name, input_dimensions: dimension, bounds })
    }

    /// The interval in which every coordinate of the problem is searched.
    pub fn bounds(&self) -> (r: Bounds)
        ensures
            r == self.bounds,
    {
        self.bounds
    }
}

} // verus!
