//! A point with the value of the objective there.

use vstd::prelude::*;
use crate::algorithms::common::arithmetic::copy_position;
use crate::algorithms::common::structs::{Candidate, Minimum};
use crate::scalar::Scalar;

verus! {

/// A position and the value of the objective there.
#[derive(Debug)]
pub struct PointValue {
    pub position: Vec<Scalar>,
    pub value: Scalar,
}

impl View for PointValue {
    type V = Candidate;

    open spec fn view(&self) -> Candidate {
        Candidate { position: self.position@, value: self.value }
    }
}

impl PointValue {
    /// The point at `position` with the value `value`.
    #[inline]
    pub fn new(position: Vec<Scalar>, value: Scalar) -> (r: PointValue)
        ensures
            r.position == position,
            r.value == value,
    {
        Self { position, value }
    }

    /// A copy of the point.
    pub fn duplicate(&self) -> (r: PointValue)
        ensures
            r@ == self@,
    {
        PointValue { position: copy_position(&self.position), value: self.value }
    }
}

/// The point of `point` as mathematics sees it, if there is one.
pub open spec fn point_view(point: Option<PointValue>) -> Option<Candidate> {
    match point {
        Some(point) => Some(point@),
        None => None,
    }
}

impl From<PointValue> for Minimum {
    fn from(point: PointValue) -> (r: Minimum) {
        Minimum::new(point.value, point.position)
    }
}

impl vstd::std_specs::convert::FromSpecImpl<PointValue> for Minimum {
    open spec fn obeys_from_spec() -> bool {
        true
    }

    open spec fn from_spec(point: PointValue) -> Minimum {
        Minimum { value: point.value, vector: point.position }
    }
}

} // verus!
