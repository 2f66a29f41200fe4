//! Points of the search space with the value of the objective at them.

use vstd::prelude::*;
use crate::algorithms::common::arithmetic::copy_position;
use crate::scalar::Scalar;

verus! {

/// A position and the value of the objective there, as mathematics sees
/// them.
pub struct Candidate {
    pub position: Seq<Scalar>,
    pub value: Scalar,
}

/// The best point that a search has found.
#[derive(Debug)]
pub struct Minimum {
    pub value: Scalar,
    pub vector: Vec<Scalar>,
}

impl View for Minimum {
    type V = Candidate;

    open spec fn view(&self) -> Candidate {
        Candidate { position: self.vector@, value: self.value }
    }
}

impl Minimum {
    /// The minimum `value`, found at `vector`.
    #[inline]
    pub fn new(value: Scalar, vector: Vec<Scalar>) -> (r: Minimum)
        ensures
            r.value == value,
            r.vector == vector,
            r@ == (Candidate { position: vector@, value }),
    {
        Self { value, vector }
    }
}

/// A point that simulated annealing looks at, with the value of the
/// objective there once it is known.
#[derive(Debug)]
pub struct State {
    pub vector: Vec<Scalar>,
    pub objective_value: Scalar,
}

impl View for State {
    type V = Candidate;

    open spec fn view(&self) -> Candidate {
        Candidate { position: self.vector@, value: self.objective_value }
    }
}

impl State {
    /// The state at `vector` whose value is not known yet; it stands at the
    /// largest finite number until it is set.
    pub fn new_without_value(vector: Vec<Scalar>) -> (r: State)
        ensures
            r.vector == vector,
            r.objective_value == Scalar::largest(),
    {
        State { vector, objective_value: Scalar::largest() }
    }

    /// Records the value of the objective at the state.
    pub fn set_objective_value(&mut self, obj_value: Scalar)
        ensures
            final(self).objective_value == obj_value,
            final(self).vector == old(self).vector,
    {
        self.objective_value = obj_value;
    }

    /// A copy of the state.
    pub fn duplicate(&self) -> (r: State)
        ensures
            r@ == self@,
    {
        State { vector: copy_position(&self.vector), objective_value: self.objective_value }
    }
}

/// The points that a search looks at next.
#[derive(Debug)]
pub struct Neighborhood {
    pub states: Vec<State>,
}

impl Default for State {
    /// The state with no coordinates, at the largest finite number.
    fn default() -> (r: State)
        ensures
            r.vector@ == Seq::<Scalar>::empty(),
            r.objective_value == Scalar::largest(),
    {
        Self { objective_value: Scalar::largest(), vector: Vec::new() }
    }
}

} // verus!
