//! One firefly of the swarm: a position and the value of the objective
//! there, and how it moves towards a brighter firefly.

use vstd::prelude::*;
use crate::algorithms::common::arithmetic::{
    calculated,
    calculates_all,
    copy_position,
    evaluated,
    evaluates_all,
    sampled,
    samples_all,
    Expression,
};
use crate::algorithms::common::rng::{lemma_draw_after_adds, UniformF64BoundedRandomGenerator};
use crate::algorithms::common::structs::Candidate;
use crate::algorithms::firefly::options::FireflyRunOptions;
use crate::bbob::problem::{BBOBProblem, Bounds};
use crate::scalar::Scalar;

verus! {

/// The number -1.
pub open spec fn minus_one() -> Scalar {
    Scalar { bits: 0xBFF0_0000_0000_0000 }
}

/// Euler's number, as close as a binary64 number comes to it.
pub open spec fn euler() -> Scalar {
    Scalar { bits: 0x4005_BF0A_8B14_5769 }
}

/// The number -0.5, the least that a jitter draw can be.
pub open spec fn jitter_low() -> Scalar {
    Scalar { bits: 0xBFE0_0000_0000_0000 }
}

/// The number 0.5, the most that a jitter draw can be.
pub open spec fn jitter_high() -> Scalar {
    Scalar { bits: 0x3FE0_0000_0000_0000 }
}

/// Whether `total` is what `calculate` may give for the squared distance
/// between the first `count` coordinates of `ours` and `theirs`: zero for no
/// coordinate, and for each further one the total so far plus the square of
/// the difference in that coordinate.
pub open spec fn squared_distance<C: Fn(Expression) -> Scalar>(
    calculate: &C,
    ours: Seq<Scalar>,
    theirs: Seq<Scalar>,
    count: nat,
    total: Scalar,
) -> bool
    decreases count,
{
    if count == 0 {
        total == Scalar::zero()
    } else {
        exists|before: Scalar, difference: Scalar, square: Scalar|
            {
                &&& squared_distance(calculate, ours, theirs, (count - 1) as nat, before)
                &&& #[trigger] calculated(
                    calculate,
                    Expression::Difference(ours[count - 1], theirs[count - 1]),
                    difference,
                )
                &&& #[trigger] calculated(calculate, Expression::Product(difference, difference), square)
                &&& #[trigger] calculated(calculate, Expression::Sum(before, square), total)
            }
    }
}

/// One more coordinate extends a squared distance by the square of the
/// difference in that coordinate.
pub proof fn lemma_squared_distance_step<C: Fn(Expression) -> Scalar>(
    calculate: &C,
    ours: Seq<Scalar>,
    theirs: Seq<Scalar>,
    count: nat,
    before: Scalar,
    difference: Scalar,
    square: Scalar,
    total: Scalar,
)
    requires
        count > 0,
        squared_distance(calculate, ours, theirs, (count - 1) as nat, before),
        calculated(calculate, Expression::Difference(ours[count - 1], theirs[count - 1]), difference),
        calculated(calculate, Expression::Product(difference, difference), square),
        calculated(calculate, Expression::Sum(before, square), total),
    ensures
        squared_distance(calculate, ours, theirs, count, total),
{
}

/// Whether `attraction` is what `calculate` may give for the pull of a
/// firefly at `theirs` on one at `ours`: the attractiveness coefficient times
/// Euler's number to the power of minus the light absorption coefficient
/// times the squared distance between the two.
pub open spec fn attraction_between<C: Fn(Expression) -> Scalar>(
    calculate: &C,
    ours: Seq<Scalar>,
    theirs: Seq<Scalar>,
    options: FireflyRunOptions,
    attraction: Scalar,
) -> bool {
    exists|distance: Scalar, absorption: Scalar, exponent: Scalar, falloff: Scalar|
        {
            &&& squared_distance(
                calculate,
                ours,
                theirs,
                shorter(ours.len(), theirs.len()),
                distance,
            )
            &&& #[trigger] calculated(
                calculate,
                Expression::Product(minus_one(), options.light_absorption_coefficient),
                absorption,
            )
            &&& #[trigger] calculated(calculate, Expression::Product(absorption, distance), exponent)
            &&& #[trigger] calculated(calculate, Expression::Power(euler(), exponent), falloff)
            &&& #[trigger] calculated(
                calculate,
                Expression::Product(options.attractiveness_coefficient, falloff),
                attraction,
            )
        }
}

/// The smaller of two lengths.
pub open spec fn shorter(first: nat, second: nat) -> nat {
    if first <= second {
        first
    } else {
        second
    }
}

/// Whether `moved` is what `calculate` may give for a coordinate `ours` that
/// is pulled towards `theirs` and shaken: `ours`, plus `attraction` times the
/// way to `theirs`, plus `jitter` times `noise`.
pub open spec fn displaced<C: Fn(Expression) -> Scalar>(
    calculate: &C,
    ours: Scalar,
    theirs: Scalar,
    attraction: Scalar,
    jitter: Scalar,
    noise: Scalar,
    moved: Scalar,
) -> bool {
    exists|way: Scalar, pull: Scalar, pulled: Scalar, shake: Scalar|
        {
            &&& #[trigger] calculated(calculate, Expression::Difference(theirs, ours), way)
            &&& #[trigger] calculated(calculate, Expression::Product(attraction, way), pull)
            &&& #[trigger] calculated(calculate, Expression::Sum(ours, pull), pulled)
            &&& #[trigger] calculated(calculate, Expression::Product(jitter, noise), shake)
            &&& #[trigger] calculated(calculate, Expression::Sum(pulled, shake), moved)
        }
}

/// Whether `moved` is what coordinate `ours` may become when it is pulled
/// towards `theirs`, shaken by draw number `draw` of the stream of `seed`
/// over `interval`, and brought into `bounds`.
pub open spec fn moved_coordinate<
    S: Fn(&[u8; 16], u128, Scalar, Scalar) -> Scalar,
    C: Fn(Expression) -> Scalar,
>(
    sample: &S,
    calculate: &C,
    seed: Seq<u8>,
    draw: u128,
    interval: Bounds,
    bounds: Bounds,
    ours: Scalar,
    theirs: Scalar,
    attraction: Scalar,
    jitter: Scalar,
    moved: Scalar,
) -> bool {
    exists|noise: Scalar, raw: Scalar|
        {
            &&& #[trigger] sampled(sample, seed, draw, interval.lower(), interval.upper(), noise)
            &&& #[trigger] displaced(calculate, ours, theirs, attraction, jitter, noise, raw)
            &&& moved == bounds.spec_clamp(raw)
        }
}

/// Whether `position` is where a firefly at `ours` may come to when it
/// moves towards a brighter one at `theirs`: one attraction is calculated for
/// the move, and coordinate `k` is moved with draw number `k` of what is left
/// of the stream `generator`.
pub open spec fn moved_towards<
    S: Fn(&[u8; 16], u128, Scalar, Scalar) -> Scalar,
    C: Fn(Expression) -> Scalar,
>(
    sample: &S,
    calculate: &C,
    generator: UniformF64BoundedRandomGenerator,
    bounds: Bounds,
    ours: Seq<Scalar>,
    theirs: Seq<Scalar>,
    options: FireflyRunOptions,
    jitter: Scalar,
    position: Seq<Scalar>,
) -> bool {
    exists|attraction: Scalar|
        {
            &&& #[trigger] attraction_between(calculate, ours, theirs, options, attraction)
            &&& position.len() == shorter(ours.len(), theirs.len())
            &&& forall|k: int|
                0 <= k < position.len() ==> moved_coordinate(
                    sample,
                    calculate,
                    generator.seed(),
                    UniformF64BoundedRandomGenerator::draw_after(generator.draws(), k),
                    generator.interval(),
                    bounds,
                    ours[k],
                    theirs[k],
                    attraction,
                    jitter,
                    #[trigger] position[k],
                )
        }
}

/// Individual firefly in the swarm.
#[derive(Debug)]
pub struct Firefly {
    pub position: Vec<Scalar>,
    pub objective_function_value: Scalar,
}

impl View for Firefly {
    type V = Candidate;

    open spec fn view(&self) -> Candidate {
        Candidate { position: self.position@, value: self.objective_function_value }
    }
}

impl Firefly {
    /// The firefly at `position`, with the value that `evaluate` gives there.
    pub fn new<E: Fn(&Vec<Scalar>) -> Scalar>(
        position: Vec<Scalar>,
        problem: &BBOBProblem,
        evaluate: &E,
    ) -> (r: Firefly)
        requires
            problem.input_dimensions == position.len(),
            evaluates_all(evaluate),
        ensures
            r.position == position,
            evaluated(evaluate, position@, r.objective_function_value),
    {
        let objective_function_value = evaluate(&position);
        Self { position, objective_function_value }
    }

    /// A copy of the firefly.
    pub fn duplicate(&self) -> (r: Firefly)
        ensures
            r@ == self@,
    {
        Firefly {
            position: copy_position(&self.position),
            objective_function_value: self.objective_function_value,
        }
    }

    /// Moves the firefly towards `second_firefly` and evaluates it where it
    /// comes to rest.
    ///
    /// Every coordinate goes the calculated attraction's share of the way to
    /// the other firefly's, plus `movement_jitter_coefficient` times the next
    /// number of the jitter stream, and is then brought into `bounds`. The
    /// fireflies are compared coordinate by coordinate; should one have
    /// fewer, the rest of the other is dropped.
    pub fn move_towards<
        E: Fn(&Vec<Scalar>) -> Scalar,
        S: Fn(&[u8; 16], u128, Scalar, Scalar) -> Scalar,
        C: Fn(Expression) -> Scalar,
    >(
        &mut self,
        second_firefly: &Firefly,
        bounds: Bounds,
        minus_half_to_half_uniform_generator: &mut UniformF64BoundedRandomGenerator,
        movement_jitter_coefficient: Scalar,
        options: &FireflyRunOptions,
        evaluate: &E,
        sample: &S,
        calculate: &C,
    )
        requires
            evaluates_all(evaluate),
            samples_all(sample),
            calculates_all(calculate),
        ensures
            moved_towards(
                sample,
                calculate,
                *old(minus_half_to_half_uniform_generator),
                bounds,
                old(self).position@,
                second_firefly.position@,
                *options,
                movement_jitter_coefficient,
                final(self).position@,
            ),
            forall|k: int|
                0 <= k < final(self).position.len() ==> (#[trigger] final(self).position[k]).is_nan()
                    || bounds.contains(final(self).position[k]),
            evaluated(evaluate, final(self).position@, final(self).objective_function_value),
            final(minus_half_to_half_uniform_generator).interval() == old(
                minus_half_to_half_uniform_generator,
            ).interval(),
            final(minus_half_to_half_uniform_generator).seed() == old(
                minus_half_to_half_uniform_generator,
            ).seed(),
            final(minus_half_to_half_uniform_generator).draws()
                == UniformF64BoundedRandomGenerator::draw_after(
                old(minus_half_to_half_uniform_generator).draws(),
                final(self).position.len() as int,
            ),
    {
        let attraction_coefficient = Firefly::attraction(
            &self.position,
            &second_firefly.position,
            options,
            calculate,
        );
        let count: usize = if self.position.len() <= second_firefly.position.len() {
            self.position.len()
        } else {
            second_firefly.position.len()
        };
        let ghost before = *minus_half_to_half_uniform_generator;
        let mut final_position: Vec<Scalar> = Vec::with_capacity(count);
        let mut k: usize = 0;
        proof {
            lemma_draw_after_adds(before.draws(), 0, 0);
        }
        while k < count
            invariant
                k <= count,
                count <= self.position.len(),
                count <= second_firefly.position.len(),
                final_position.len() == k,
                samples_all(sample),
                calculates_all(calculate),
                minus_half_to_half_uniform_generator.interval() == before.interval(),
                minus_half_to_half_uniform_generator.seed() == before.seed(),
                minus_half_to_half_uniform_generator.draws()
                    == UniformF64BoundedRandomGenerator::draw_after(before.draws(), k as int),
                forall|j: int|
                    0 <= j < k ==> moved_coordinate(
                        sample,
                        calculate,
                        before.seed(),
                        UniformF64BoundedRandomGenerator::draw_after(before.draws(), j),
                        before.interval(),
                        bounds,
                        self.position[j],
                        second_firefly.position[j],
                        attraction_coefficient,
                        movement_jitter_coefficient,
                        #[trigger] final_position[j],
                    ),
                forall|j: int|
                    0 <= j < k ==> (#[trigger] final_position[j]).is_nan() || bounds.contains(
                        final_position[j],
                    ),
            decreases count - k,
        {
            let our_value = self.position[k];
            let other_firefly_value = second_firefly.position[k];
            let noise = minus_half_to_half_uniform_generator.sample(sample);
            let way = calculate(Expression::Difference(other_firefly_value, our_value));
            let pull = calculate(Expression::Product(attraction_coefficient, way));
            let pulled = calculate(Expression::Sum(our_value, pull));
            let shake = calculate(Expression::Product(movement_jitter_coefficient, noise));
            let updated_value = calculate(Expression::Sum(pulled, shake));
            let clamped = bounds.clamp(updated_value);
            proof {
                lemma_draw_after_adds(before.draws(), k as int, 1);
                assert(calculated(
                    calculate,
                    Expression::Difference(other_firefly_value, our_value),
                    way,
                ));
                assert(calculated(calculate, Expression::Product(attraction_coefficient, way), pull));
                assert(calculated(calculate, Expression::Sum(our_value, pull), pulled));
                assert(calculated(
                    calculate,
                    Expression::Product(movement_jitter_coefficient, noise),
                    shake,
                ));
                assert(calculated(calculate, Expression::Sum(pulled, shake), updated_value));
                assert(displaced(
                    calculate,
                    our_value,
                    other_firefly_value,
                    attraction_coefficient,
                    movement_jitter_coefficient,
                    noise,
                    updated_value,
                ));
                assert(moved_coordinate(
                    sample,
                    calculate,
                    before.seed(),
                    UniformF64BoundedRandomGenerator::draw_after(before.draws(), k as int),
                    before.interval(),
                    bounds,
                    our_value,
                    other_firefly_value,
                    attraction_coefficient,
                    movement_jitter_coefficient,
                    clamped,
                ));
            }
            final_position.push(clamped);
            k += 1;
        }
        let objective_function_value = evaluate(&final_position);
        proof {
            assert(moved_towards(
                sample,
                calculate,
                before,
                bounds,
                self.position@,
                second_firefly.position@,
                *options,
                movement_jitter_coefficient,
                final_position@,
            ));
        }
        self.position = final_position;
        self.objective_function_value = objective_function_value;
    }

    /// How strongly the firefly at `theirs` pulls the one at `ours`.
    pub fn attraction<C: Fn(Expression) -> Scalar>(
        ours: &Vec<Scalar>,
        theirs: &Vec<Scalar>,
        options: &FireflyRunOptions,
        calculate: &C,
    ) -> (r: Scalar)
        requires
            calculates_all(calculate),
        ensures
            attraction_between(calculate, ours@, theirs@, *options, r),
    {
        let count: usize = if ours.len() <= theirs.len() {
            ours.len()
        } else {
            theirs.len()
        };
        let mut distance = Scalar::zero();
        let mut k: usize = 0;
        while k < count
            invariant
                k <= count,
                count <= ours.len(),
                count <= theirs.len(),
                calculates_all(calculate),
                squared_distance(calculate, ours@, theirs@, k as nat, distance),
            decreases count - k,
        {
            let difference = calculate(Expression::Difference(ours[k], theirs[k]));
            let square = calculate(Expression::Product(difference, difference));
            let total = calculate(Expression::Sum(distance, square));
            proof {
                lemma_squared_distance_step(
                    calculate,
                    ours@,
                    theirs@,
                    (k + 1) as nat,
                    distance,
                    difference,
                    square,
                    total,
                );
            }
            distance = total;
            k += 1;
        }
        let absorption = calculate(
            Expression::Product(
                Scalar { bits: 0xBFF0_0000_0000_0000 },
                options.light_absorption_coefficient,
            ),
        );
        let exponent = calculate(Expression::Product(absorption, distance));
        let falloff = calculate(
            Expression::Power(Scalar { bits: 0x4005_BF0A_8B14_5769 }, exponent),
        );
        let attraction = calculate(
            Expression::Product(options.attractiveness_coefficient, falloff),
        );
        proof {
            assert(calculated(
                calculate,
                Expression::Product(minus_one(), options.light_absorption_coefficient),
                absorption,
            ));
            assert(calculated(calculate, Expression::Product(absorption, distance), exponent));
            assert(calculated(calculate, Expression::Power(euler(), exponent), falloff));
            assert(calculated(
                calculate,
                Expression::Product(options.attractiveness_coefficient, falloff),
                attraction,
            ));
        }
        attraction
    }
}

} // verus!
