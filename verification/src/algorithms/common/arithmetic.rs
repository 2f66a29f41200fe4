//! What the optimizers ask of the caller: numbers they cannot compute
//! themselves.
//!
//! The optimizers decide; they do not calculate. Every sum, product or
//! exponential that a search needs is handed, as an [`Expression`], to a
//! function of the caller, and so is every evaluation of the objective and
//! every draw of a random number. The contracts of the optimizers hold
//! whatever these functions return.

use vstd::prelude::*;
use crate::scalar::Scalar;

verus! {

/// A calculation on numbers whose value the caller computes.
#[derive(Clone, Copy, Debug, PartialEq, Eq, Structural)]
pub enum Expression {
    /// The first number plus the second.
    Sum(Scalar, Scalar),
    /// The first number minus the second.
    Difference(Scalar, Scalar),
    /// The first number times the second.
    Product(Scalar, Scalar),
    /// The first number divided by the second.
    Quotient(Scalar, Scalar),
    /// The first number to the power of the second.
    Power(Scalar, Scalar),
    /// The exponential function of the number.
    Exponential(Scalar),
    /// The count as a number.
    Count(usize),
}

/// Whether `calculate` may be asked for the value of every expression.
pub open spec fn calculates_all<C: Fn(Expression) -> Scalar>(calculate: &C) -> bool {
    forall|expression: Expression| calculate.requires((expression,))
}

/// Whether `value` is what `calculate` may give for `expression`.
pub open spec fn calculated<C: Fn(Expression) -> Scalar>(
    calculate: &C,
    expression: Expression,
    value: Scalar,
) -> bool {
    calculate.ensures((expression,), value)
}

/// Whether `evaluate` may be asked for the objective value of every
/// position.
pub open spec fn evaluates_all<E: Fn(&Vec<Scalar>) -> Scalar>(evaluate: &E) -> bool {
    forall|position: &Vec<Scalar>| evaluate.requires((position,))
}

/// Whether `value` is what `evaluate` may give for `position`.
pub open spec fn evaluated<E: Fn(&Vec<Scalar>) -> Scalar>(
    evaluate: &E,
    position: Seq<Scalar>,
    value: Scalar,
) -> bool {
    exists|at: &Vec<Scalar>| at@ == position && evaluate.ensures((at,), value)
}

/// Whether `sample` may be asked for every draw of every stream over every
/// interval.
pub open spec fn samples_all<S: Fn(&[u8; 16], u128, Scalar, Scalar) -> Scalar>(sample: &S) -> bool {
    forall|seed: &[u8; 16], draw: u128, low: Scalar, high: Scalar|
        sample.requires((seed, draw, low, high))
}

/// Whether `value` is what `sample` may give as draw number `draw` of the
/// stream of `seed`, uniform over `[low, high]`.
pub open spec fn sampled<S: Fn(&[u8; 16], u128, Scalar, Scalar) -> Scalar>(
    sample: &S,
    seed: Seq<u8>,
    draw: u128,
    low: Scalar,
    high: Scalar,
    value: Scalar,
) -> bool {
    exists|of: &[u8; 16]| of@ == seed && sample.ensures((of, draw, low, high), value)
}

/// A copy of `position`.
pub fn copy_position(position: &Vec<Scalar>) -> (r: Vec<Scalar>)
    ensures
        r@ == position@,
{
    let mut copy: Vec<Scalar> = Vec::with_capacity(position.len());
    let mut k: usize = 0;
    while k < position.len()
        invariant
            k <= position.len(),
            copy@ == position@.subrange(0, k as int),
        decreases position.len() - k,
    {
        copy.push(position[k]);
        proof {
            assert(copy@ =~= position@.subrange(0, k + 1));
        }
        k += 1;
    }
    proof {
        assert(position@.subrange(0, position.len() as int) =~= position@);
    }
    copy
}

} // verus!
