//! The swarm: a fixed number of fireflies, the best point they have found,
//! and the jitter with which they move.

use vstd::prelude::*;
use crate::algorithms::common::arithmetic::{
    calculated,
    calculates_all,
    copy_position,
    evaluated,
    evaluates_all,
    sampled,
    samples_all,
    Expression,
};
use crate::algorithms::common::rng::{
    lemma_wrapped_position_adds,
    stream_byte,
    wrapped_position,
    UniformF64BoundedRandomGenerator,
    UniformU8RandomGenerator,
};
use crate::algorithms::common::sorting::{descending, is_sorting_of, sort_descending, Ranked};
use crate::algorithms::common::structs::Candidate;
use crate::algorithms::firefly::individual_firefly::{
    jitter_high,
    jitter_low,
    moved_towards,
    Firefly,
};
use crate::algorithms::firefly::options::FireflyRunOptions;
use crate::algorithms::firefly::utilities::PointValue;
use crate::bbob::problem::{BBOBProblem, Bounds};
use crate::scalar::Scalar;

verus! {

impl Ranked for Firefly {
    open spec fn key(&self) -> Scalar {
        self.objective_function_value
    }

    /// Fireflies of the same value keep the order in which they came.
    open spec fn tie(&self) -> nat {
        0
    }

    fn sort_key(&self) -> (r: Scalar) {
        self.objective_function_value
    }

    fn sort_tie(&self) -> (r: usize) {
        0
    }
}

/// Whether a point with the value `value` replaces `best` as the best
/// solution: there is none yet, or `value` is strictly smaller than its
/// value.
pub open spec fn improves(value: Scalar, best: Option<Candidate>) -> bool {
    best is None || value.lt(best.unwrap().value)
}

/// The best solution after the fireflies of `seen` have been looked at one
/// after the other, starting from `best`: each one replaces the best
/// solution exactly when its value is strictly smaller.
pub open spec fn best_of(best: Option<Candidate>, seen: Seq<Firefly>) -> Option<Candidate>
    decreases seen.len(),
{
    if seen.len() == 0 {
        best
    } else {
        let before = best_of(best, seen.drop_last());
        if improves(seen.last().objective_function_value, before) {
            Some(seen.last()@)
        } else {
            before
        }
    }
}

/// Whether any firefly of `seen` replaced the best solution while they were
/// looked at one after the other, starting from `best`.
pub open spec fn improved(best: Option<Candidate>, seen: Seq<Firefly>) -> bool
    decreases seen.len(),
{
    if seen.len() == 0 {
        false
    } else {
        improved(best, seen.drop_last()) || improves(
            seen.last().objective_function_value,
            best_of(best, seen.drop_last()),
        )
    }
}

/// Whether a swarm that has gone `stagnation` iterations without a better
/// best solution still cools its jitter down, rather than heating it up.
pub open spec fn cools(options: FireflyRunOptions, stagnation: usize) -> bool {
    stagnation < options.movement_jitter_min_stuck_runs_to_reheat
}

/// The factor by which the jitter coefficient is multiplied after an
/// iteration that left the swarm `stagnation` iterations without a better
/// best solution.
pub open spec fn jitter_factor(options: FireflyRunOptions, stagnation: usize) -> Scalar {
    if cools(options, stagnation) {
        options.movement_jitter_cooling_factor
    } else {
        options.movement_jitter_heating_factor
    }
}

/// The jitter coefficient after an iteration, given the `product` of the
/// coefficient before it and [`jitter_factor`]: when cooling, the product but
/// no less than the minimum coefficient; when heating, the product but no
/// more than the maximum coefficient.
pub open spec fn next_jitter(options: FireflyRunOptions, stagnation: usize, product: Scalar) -> Scalar {
    if cools(options, stagnation) {
        product.max(options.movement_jitter_minimum_coefficient)
    } else {
        product.min(options.movement_jitter_maximum_coefficient)
    }
}

/// Whether no firefly after number `index` of `fireflies` is strictly
/// brighter than that one, so that it has nowhere to move.
pub open spec fn brightest_of_rest(fireflies: Seq<Firefly>, index: int) -> bool {
    forall|j: int|
        index < j < fireflies.len() ==> !(#[trigger] fireflies[j]).objective_function_value.lt(
            fireflies[index].objective_function_value,
        )
}

/// Looking at more fireflies never makes the best solution worse, and
/// looking at any firefly at all gives one.
pub proof fn lemma_best_of_improves(best: Option<Candidate>, seen: Seq<Firefly>)
    ensures
        seen.len() > 0 ==> best_of(best, seen) is Some,
        best is Some ==> best_of(best, seen) is Some && (best_of(best, seen) == best || best_of(
            best,
            seen,
        ).unwrap().value.lt(best.unwrap().value)),
        !improved(best, seen) ==> best_of(best, seen) == best,
        improved(best, seen) ==> exists|k: int|
            0 <= k < seen.len() && best_of(best, seen) == Some((#[trigger] seen[k])@),
    decreases seen.len(),
{
    if seen.len() > 0 {
        lemma_best_of_improves(best, seen.drop_last());
        let before = best_of(best, seen.drop_last());
        if improves(seen.last().objective_function_value, before) {
            assert(best_of(best, seen) == Some(seen[seen.len() - 1]@));
        } else if improved(best, seen.drop_last()) {
            let k = choose|k: int|
                0 <= k < seen.drop_last().len() && before == Some((#[trigger] seen.drop_last()[k])@);
            assert(seen.drop_last()[k] == seen[k]);
        }
    }
}

/// The best solution is never worse than a firefly that was looked at: no
/// firefly of `seen` has a strictly smaller value.
pub proof fn lemma_best_of_is_least(best: Option<Candidate>, seen: Seq<Firefly>, k: int)
    requires
        0 <= k < seen.len(),
    ensures
        best_of(best, seen) is Some,
        !seen[k].objective_function_value.lt(best_of(best, seen).unwrap().value),
    decreases seen.len(),
{
    let before = best_of(best, seen.drop_last());
    lemma_best_of_improves(before, seq![seen.last()]);
    lemma_best_of_improves(best, seen);
    if k < seen.len() - 1 {
        lemma_best_of_is_least(best, seen.drop_last(), k);
        assert(seen.drop_last()[k] == seen[k]);
    }
}

/// The draw of a stream with which the coordinates of firefly number
/// `index` begin, when every firefly before it took `dimensions` draws.
pub open spec fn first_draw(index: nat, dimensions: usize) -> u128
    decreases index,
{
    if index == 0 {
        0
    } else {
        UniformF64BoundedRandomGenerator::draw_after(
            first_draw((index - 1) as nat, dimensions),
            dimensions as int,
        )
    }
}

/// Whether `firefly` is what firefly number `index` of a random swarm may
/// be: its coordinates are the draws of the stream of `seed` over the bounds
/// of the problem that follow those of the fireflies before it, and its value
/// is what `evaluate` gives there.
pub open spec fn drawn_firefly<
    E: Fn(&Vec<Scalar>) -> Scalar,
    S: Fn(&[u8; 16], u128, Scalar, Scalar) -> Scalar,
>(
    evaluate: &E,
    sample: &S,
    problem: BBOBProblem,
    seed: Seq<u8>,
    index: nat,
    firefly: Firefly,
) -> bool {
    &&& firefly.position.len() == problem.input_dimensions
    &&& forall|k: int|
        0 <= k < firefly.position.len() ==> sampled(
            sample,
            seed,
            UniformF64BoundedRandomGenerator::draw_after(
                first_draw(index, problem.input_dimensions),
                k,
            ),
            problem.bounds.lower(),
            problem.bounds.upper(),
            #[trigger] firefly.position[k],
        )
    &&& evaluated(evaluate, firefly.position@, firefly.objective_function_value)
}

/// The 16 bytes of the stream of `seed` that begin at byte `position`.
pub open spec fn seed_at(seed: Seq<u8>, position: nat) -> Seq<u8> {
    Seq::new(16, |k: int| stream_byte(seed, wrapped_position(position + k)))
}

/// The interval from -0.5 to 0.5, over which jitter is drawn.
pub open spec fn is_jitter_interval(interval: Bounds) -> bool {
    interval.lower() == jitter_low() && interval.upper() == jitter_high()
}

/// Whether `swarm` is what a fresh swarm for a run under `options` may be:
/// it has found no best solution, starts with the jitter coefficient of the
/// options, and draws its jitter over the jitter interval from the start of
/// the stream of `jitter_seed`.
pub open spec fn is_fresh_swarm(
    problem: BBOBProblem,
    options: FireflyRunOptions,
    jitter_seed: Seq<u8>,
    swarm: FireflySwarm,
) -> bool {
    &&& swarm.holds_together()
    &&& swarm.problem() == problem
    &&& swarm.options() == options
    &&& swarm.best() is None
    &&& swarm.jitter() == options.movement_jitter_starting_coefficient
    &&& swarm.stagnation() == 0
    &&& swarm.jitter_stream().seed() == jitter_seed
    &&& swarm.jitter_stream().draws() == 0
    &&& is_jitter_interval(swarm.jitter_stream().interval())
}

/// Whether `swarm` is what a swarm at random positions may be when the
/// positions are drawn from the stream of `position_seed`: it is a fresh
/// swarm, and its fireflies are the drawn ones, sorted from the worst to the
/// best, those of the same value in the order in which they were drawn.
pub open spec fn is_random_swarm<
    E: Fn(&Vec<Scalar>) -> Scalar,
    S: Fn(&[u8; 16], u128, Scalar, Scalar) -> Scalar,
>(
    evaluate: &E,
    sample: &S,
    problem: BBOBProblem,
    options: FireflyRunOptions,
    position_seed: Seq<u8>,
    jitter_seed: Seq<u8>,
    swarm: FireflySwarm,
) -> bool {
    &&& is_fresh_swarm(problem, options, jitter_seed, swarm)
    &&& exists|drawn: Seq<Firefly>|
        {
            &&& #[trigger] is_sorting_of(drawn, swarm.population())
            &&& drawn.to_multiset() == swarm.population().to_multiset()
            &&& drawn.len() == options.swarm_size
            &&& forall|i: int|
                0 <= i < drawn.len() ==> drawn_firefly(
                    evaluate,
                    sample,
                    problem,
                    position_seed,
                    i as nat,
                    #[trigger] drawn[i],
                )
        }
}

/// Whether `swarm` is what a swarm that starts at `point` may be: it is a
/// fresh swarm, and each of its fireflies stands at `point` with a value that
/// `evaluate` gives there.
pub open spec fn is_swarm_at_point<E: Fn(&Vec<Scalar>) -> Scalar>(
    evaluate: &E,
    problem: BBOBProblem,
    options: FireflyRunOptions,
    jitter_seed: Seq<u8>,
    point: Seq<Scalar>,
    swarm: FireflySwarm,
) -> bool {
    &&& is_fresh_swarm(problem, options, jitter_seed, swarm)
    &&& forall|i: int|
        0 <= i < swarm.population().len() ==> (#[trigger] swarm.population()[i]).position@ == point
            && evaluated(evaluate, point, swarm.population()[i].objective_function_value)
}

/// Whether a copy of a firefly that was `copy_before`, with the jitter
/// stream at `stream_before`, may be `copy_after`, with the stream at
/// `stream_after`, once it has looked at the firefly `peer`.
///
/// If the value of `peer` is strictly smaller than that of the copy, the copy
/// has moved towards it and has been evaluated where it came to rest, and
/// the stream has gone on by one draw for each coordinate. Otherwise nothing
/// has changed.
pub open spec fn looked_at<
    E: Fn(&Vec<Scalar>) -> Scalar,
    S: Fn(&[u8; 16], u128, Scalar, Scalar) -> Scalar,
    C: Fn(Expression) -> Scalar,
>(
    evaluate: &E,
    sample: &S,
    calculate: &C,
    swarm: FireflySwarm,
    peer: Firefly,
    copy_before: Candidate,
    stream_before: UniformF64BoundedRandomGenerator,
    copy_after: Candidate,
    stream_after: UniformF64BoundedRandomGenerator,
) -> bool {
    if peer.objective_function_value.lt(copy_before.value) {
        &&& moved_towards(
            sample,
            calculate,
            stream_before,
            swarm.problem().bounds,
            copy_before.position,
            peer.position@,
            swarm.options(),
            swarm.jitter(),
            copy_after.position,
        )
        &&& evaluated(evaluate, copy_after.position, copy_after.value)
        &&& stream_after.seed() == stream_before.seed()
        &&& stream_after.interval() == stream_before.interval()
        &&& stream_after.draws() == UniformF64BoundedRandomGenerator::draw_after(
            stream_before.draws(),
            copy_after.position.len() as int,
        )
    } else {
        &&& copy_after == copy_before
        &&& stream_after == stream_before
    }
}

/// Whether a copy of firefly number `index` of `swarm` may be `copy`, with
/// the jitter stream at `stream`, once it has looked at the fireflies that
/// stand after it and before number `upto`, one after the other, starting
/// with the stream at `stream_before`.
pub open spec fn moved_past<
    E: Fn(&Vec<Scalar>) -> Scalar,
    S: Fn(&[u8; 16], u128, Scalar, Scalar) -> Scalar,
    C: Fn(Expression) -> Scalar,
>(
    evaluate: &E,
    sample: &S,
    calculate: &C,
    swarm: FireflySwarm,
    index: int,
    upto: int,
    stream_before: UniformF64BoundedRandomGenerator,
    copy: Candidate,
    stream: UniformF64BoundedRandomGenerator,
) -> bool
    decreases upto - index,
{
    if upto <= index + 1 {
        &&& copy == swarm.population()[index]@
        &&& stream == stream_before
    } else {
        exists|earlier: Candidate, earlier_stream: UniformF64BoundedRandomGenerator|
            {
                &&& moved_past(
                    evaluate,
                    sample,
                    calculate,
                    swarm,
                    index,
                    upto - 1,
                    stream_before,
                    earlier,
                    earlier_stream,
                )
                &&& #[trigger] looked_at(
                    evaluate,
                    sample,
                    calculate,
                    swarm,
                    swarm.population()[upto - 1],
                    earlier,
                    earlier_stream,
                    copy,
                    stream,
                )
            }
    }
}

/// Looking at one more firefly extends what a copy has moved past.
pub proof fn lemma_moved_past_step<
    E: Fn(&Vec<Scalar>) -> Scalar,
    S: Fn(&[u8; 16], u128, Scalar, Scalar) -> Scalar,
    C: Fn(Expression) -> Scalar,
>(
    evaluate: &E,
    sample: &S,
    calculate: &C,
    swarm: FireflySwarm,
    index: int,
    upto: int,
    stream_before: UniformF64BoundedRandomGenerator,
    earlier: Candidate,
    earlier_stream: UniformF64BoundedRandomGenerator,
    copy: Candidate,
    stream: UniformF64BoundedRandomGenerator,
)
    requires
        upto > index + 1,
        moved_past(
            evaluate,
            sample,
            calculate,
            swarm,
            index,
            upto - 1,
            stream_before,
            earlier,
            earlier_stream,
        ),
        looked_at(
            evaluate,
            sample,
            calculate,
            swarm,
            swarm.population()[upto - 1],
            earlier,
            earlier_stream,
            copy,
            stream,
        ),
    ensures
        moved_past(evaluate, sample, calculate, swarm, index, upto, stream_before, copy, stream),
{
}

/// Whether the first `count` fireflies of `generation` are what the first
/// `count` fireflies of `swarm` may become in one iteration, the jitter
/// stream being at `stream` afterwards: each is the copy of the firefly in
/// its place once that has looked at all fireflies that stood after it, and
/// the stream goes on from one copy to the next.
pub open spec fn generation_through<
    E: Fn(&Vec<Scalar>) -> Scalar,
    S: Fn(&[u8; 16], u128, Scalar, Scalar) -> Scalar,
    C: Fn(Expression) -> Scalar,
>(
    evaluate: &E,
    sample: &S,
    calculate: &C,
    swarm: FireflySwarm,
    generation: Seq<Firefly>,
    count: int,
    stream: UniformF64BoundedRandomGenerator,
) -> bool
    decreases count,
{
    if count <= 0 {
        stream == swarm.jitter_stream()
    } else {
        exists|earlier_stream: UniformF64BoundedRandomGenerator|
            {
                &&& generation_through(
                    evaluate,
                    sample,
                    calculate,
                    swarm,
                    generation,
                    count - 1,
                    earlier_stream,
                )
                &&& #[trigger] moved_past(
                    evaluate,
                    sample,
                    calculate,
                    swarm,
                    count - 1,
                    swarm.population().len() as int,
                    earlier_stream,
                    generation[count - 1]@,
                    stream,
                )
            }
    }
}

/// One more firefly extends a generation.
pub proof fn lemma_generation_step<
    E: Fn(&Vec<Scalar>) -> Scalar,
    S: Fn(&[u8; 16], u128, Scalar, Scalar) -> Scalar,
    C: Fn(Expression) -> Scalar,
>(
    evaluate: &E,
    sample: &S,
    calculate: &C,
    swarm: FireflySwarm,
    generation: Seq<Firefly>,
    count: int,
    earlier_stream: UniformF64BoundedRandomGenerator,
    stream: UniformF64BoundedRandomGenerator,
)
    requires
        count > 0,
        generation_through(
            evaluate,
            sample,
            calculate,
            swarm,
            generation,
            count - 1,
            earlier_stream,
        ),
        moved_past(
            evaluate,
            sample,
            calculate,
            swarm,
            count - 1,
            swarm.population().len() as int,
            earlier_stream,
            generation[count - 1]@,
            stream,
        ),
    ensures
        generation_through(evaluate, sample, calculate, swarm, generation, count, stream),
{
}

/// A generation depends only on the fireflies that are looked at.
pub proof fn lemma_generation_prefix<
    E: Fn(&Vec<Scalar>) -> Scalar,
    S: Fn(&[u8; 16], u128, Scalar, Scalar) -> Scalar,
    C: Fn(Expression) -> Scalar,
>(
    evaluate: &E,
    sample: &S,
    calculate: &C,
    swarm: FireflySwarm,
    first: Seq<Firefly>,
    second: Seq<Firefly>,
    count: int,
    stream: UniformF64BoundedRandomGenerator,
)
    requires
        generation_through(evaluate, sample, calculate, swarm, first, count, stream),
        count <= first.len(),
        count <= second.len(),
        forall|k: int| 0 <= k < count ==> first[k] == second[k],
    ensures
        generation_through(evaluate, sample, calculate, swarm, second, count, stream),
    decreases count,
{
    if count > 0 {
        let earlier_stream = choose|earlier_stream: UniformF64BoundedRandomGenerator|
            {
                &&& generation_through(
                    evaluate,
                    sample,
                    calculate,
                    swarm,
                    first,
                    count - 1,
                    earlier_stream,
                )
                &&& #[trigger] moved_past(
                    evaluate,
                    sample,
                    calculate,
                    swarm,
                    count - 1,
                    swarm.population().len() as int,
                    earlier_stream,
                    first[count - 1]@,
                    stream,
                )
            };
        lemma_generation_prefix(
            evaluate,
            sample,
            calculate,
            swarm,
            first,
            second,
            count - 1,
            earlier_stream,
        );
        lemma_generation_step(
            evaluate,
            sample,
            calculate,
            swarm,
            second,
            count,
            earlier_stream,
            stream,
        );
    }
}

/// What one iteration makes of a swarm.
///
/// `generation` holds the fireflies after their moves, in the order in which
/// they stood before the iteration, and `product` is the jitter coefficient
/// times the factor of [`jitter_factor`]. Each firefly of the generation is
/// the copy of the one in its place after it has looked at all that stood
/// after it; one that no later one outshines has not moved. The best solution
/// is that of before, unless a firefly of the generation is strictly better;
/// the swarm is the generation, sorted again.
pub open spec fn iteration_outcome<
    E: Fn(&Vec<Scalar>) -> Scalar,
    S: Fn(&[u8; 16], u128, Scalar, Scalar) -> Scalar,
    C: Fn(Expression) -> Scalar,
>(
    evaluate: &E,
    sample: &S,
    calculate: &C,
    before: FireflySwarm,
    after: FireflySwarm,
    generation: Seq<Firefly>,
    product: Scalar,
) -> bool {
    &&& generation.len() == before.population().len()
    &&& generation_through(
        evaluate,
        sample,
        calculate,
        before,
        generation,
        generation.len() as int,
        after.jitter_stream(),
    )
    &&& is_sorting_of(generation, after.population())
    &&& after.population().to_multiset() == generation.to_multiset()
    &&& forall|i: int|
        0 <= i < generation.len() && brightest_of_rest(before.population(), i) ==> (
        #[trigger] generation[i])@ == before.population()[i]@
    &&& after.best() == best_of(before.best(), generation)
    &&& after.stagnation() == if improved(before.best(), generation) {
        0
    } else {
        before.stagnation() + 1
    }
    &&& calculated(
        calculate,
        Expression::Product(before.jitter(), jitter_factor(before.options(), after.stagnation())),
        product,
    )
    &&& after.jitter() == next_jitter(before.options(), after.stagnation(), product)
}

/// Entire firefly swarm.
///
/// The swarm always holds as many fireflies as its options say, each with as
/// many coordinates as the problem has, and keeps them sorted from the worst
/// to the best.
pub struct FireflySwarm {
    problem: BBOBProblem,
    minus_half_to_half_uniform_generator: UniformF64BoundedRandomGenerator,
    options: FireflyRunOptions,
    /// Vector of fireflies - this is the swarm.
    fireflies: Vec<Firefly>,
    /// Current best solution from all iterations up to this point.
    current_best_solution: Option<PointValue>,
    current_movement_jitter_coefficient: Scalar,
    iterations_since_improvement: usize,
}

/// Whether every firefly of `fireflies` has `dimensions` coordinates.
pub open spec fn all_of_dimension(fireflies: Seq<Firefly>, dimensions: usize) -> bool {
    forall|i: int| 0 <= i < fireflies.len() ==> (#[trigger] fireflies[i]).position.len() == dimensions
}

impl FireflySwarm {
    #[verifier::type_invariant]
    spec fn well_formed(self) -> bool {
        &&& self.fireflies.len() == self.options.swarm_size
        &&& descending(self.fireflies@)
        &&& all_of_dimension(self.fireflies@, self.problem.input_dimensions)
        &&& self.current_best_solution is Some ==> self.current_best_solution.unwrap().position.len()
            == self.problem.input_dimensions
    }

    /// The fireflies, from the worst to the best.
    pub closed spec fn population(self) -> Seq<Firefly> {
        self.fireflies@
    }

    /// The best solution found so far, if any firefly has been looked at.
    pub closed spec fn best(self) -> Option<Candidate> {
        match self.current_best_solution {
            Some(point) => Some(point@),
            None => None,
        }
    }

    /// The jitter coefficient with which the fireflies move next.
    pub closed spec fn jitter(self) -> Scalar {
        self.current_movement_jitter_coefficient
    }

    /// How many iterations in a row have not found a better best solution.
    pub closed spec fn stagnation(self) -> usize {
        self.iterations_since_improvement
    }

    /// The parameters of the run.
    pub closed spec fn options(self) -> FireflyRunOptions {
        self.options
    }

    /// The problem that the swarm searches.
    pub closed spec fn problem(self) -> BBOBProblem {
        self.problem
    }

    /// The stream from which the jitter of the next moves is drawn.
    pub closed spec fn jitter_stream(self) -> UniformF64BoundedRandomGenerator {
        self.minus_half_to_half_uniform_generator
    }

    /// What always holds of a swarm.
    pub open spec fn holds_together(self) -> bool {
        &&& self.population().len() == self.options().swarm_size
        &&& descending(self.population())
        &&& all_of_dimension(self.population(), self.problem().input_dimensions)
        &&& self.best() is Some ==> self.best().unwrap().position.len()
            == self.problem().input_dimensions
    }

    /// A swarm of fireflies at random positions within the bounds of the
    /// problem.
    ///
    /// Two seeds of 16 bytes are drawn from `seed_generator`: the first for
    /// the stream of the positions, the second for the stream of the jitter
    /// with which the swarm will move. The swarm has found no best solution
    /// yet and starts with the jitter coefficient of the options.
    pub fn initialize_random<
        E: Fn(&Vec<Scalar>) -> Scalar,
        S: Fn(&[u8; 16], u128, Scalar, Scalar) -> Scalar,
    >(
        problem: &BBOBProblem,
        seed_generator: &mut UniformU8RandomGenerator,
        options: &FireflyRunOptions,
        evaluate: &E,
        sample: &S,
    ) -> (r: Self)
        requires
            evaluates_all(evaluate),
            samples_all(sample),
        ensures
            is_random_swarm(
                evaluate,
                sample,
                *problem,
                *options,
                seed_at(old(seed_generator).seed(), old(seed_generator).position()),
                seed_at(
                    old(seed_generator).seed(),
                    wrapped_position(old(seed_generator).position() + 16int),
                ),
                r,
            ),
            final(seed_generator).seed() == old(seed_generator).seed(),
            final(seed_generator).position() == wrapped_position(
                old(seed_generator).position() + 32int,
            ),
    {
        let input_dimensions = problem.input_dimensions;
        let ghost master = *seed_generator;
        let position_seed = seed_generator.sample_multiple::<16>();
        let jitter_seed = seed_generator.sample_multiple::<16>();
        proof {
            assert(position_seed@ =~= seed_at(master.seed(), master.position()));
            assert(jitter_seed@ =~= seed_at(
                master.seed(),
                wrapped_position(master.position() + 16int),
            ));
            lemma_wrapped_position_adds(master.position() + 16int, 16);
        }
        let mut in_bounds_uniform_generator = UniformF64BoundedRandomGenerator::new(
            problem.bounds(),
            position_seed,
        );
        let minus_half_to_half_uniform_generator = UniformF64BoundedRandomGenerator::new(
            Bounds::new(
                Scalar { bits: 0xBFE0_0000_0000_0000 },
                Scalar { bits: 0x3FE0_0000_0000_0000 },
            ),
            jitter_seed,
        );
        let mut fireflies: Vec<Firefly> = Vec::with_capacity(options.swarm_size);
        let mut index: usize = 0;
        while index < options.swarm_size
            invariant
                index <= options.swarm_size,
                fireflies.len() == index,
                input_dimensions == problem.input_dimensions,
                evaluates_all(evaluate),
                samples_all(sample),
                in_bounds_uniform_generator.interval() == problem.bounds,
                in_bounds_uniform_generator.seed() == position_seed@,
                in_bounds_uniform_generator.draws() == first_draw(index as nat, input_dimensions),
                forall|i: int|
                    0 <= i < index ==> drawn_firefly(
                        evaluate,
                        sample,
                        *problem,
                        position_seed@,
                        i as nat,
                        #[trigger] fireflies[i],
                    ),
            decreases options.swarm_size - index,
        {
            let initial_position: Vec<Scalar> = in_bounds_uniform_generator.sample_multiple(
                input_dimensions,
                sample,
            );
            let firefly = Firefly::new(initial_position, problem, evaluate);
            proof {
                assert(drawn_firefly(
                    evaluate,
                    sample,
                    *problem,
                    position_seed@,
                    index as nat,
                    firefly,
                ));
            }
            fireflies.push(firefly);
            index += 1;
        }
        let ghost drawn = fireflies@;
        let sorted = sort_descending(fireflies);
        proof {
            assert forall|i: int| 0 <= i < sorted.len() implies (#[trigger] sorted[i]).position.len()
                == problem.input_dimensions by {
                assert(drawn.contains(sorted[i]));
            }
            assert(drawn.to_multiset() == sorted@.to_multiset());
        }
        Self {
            problem: *problem,
            minus_half_to_half_uniform_generator,
            current_best_solution: None,
            options: *options,
            fireflies: sorted,
            current_movement_jitter_coefficient: options.movement_jitter_starting_coefficient,
            iterations_since_improvement: 0,
        }
    }

    /// A swarm whose fireflies all stand at `initial_point`.
    ///
    /// One seed of 16 bytes is drawn from `seed_generator`, for the stream
    /// of the jitter with which the swarm will move. The swarm has found no
    /// best solution yet and starts with the jitter coefficient of the
    /// options.
    pub fn initialize_at_point<E: Fn(&Vec<Scalar>) -> Scalar>(
        problem: &BBOBProblem,
        seed_generator: &mut UniformU8RandomGenerator,
        options: &FireflyRunOptions,
        initial_point: Vec<Scalar>,
        evaluate: &E,
    ) -> (r: Self)
        requires
            initial_point.len() == problem.input_dimensions,
            evaluates_all(evaluate),
        ensures
            is_swarm_at_point(
                evaluate,
                *problem,
                *options,
                seed_at(old(seed_generator).seed(), old(seed_generator).position()),
                initial_point@,
                r,
            ),
            final(seed_generator).seed() == old(seed_generator).seed(),
            final(seed_generator).position() == wrapped_position(
                old(seed_generator).position() + 16int,
            ),
    {
        let ghost master = *seed_generator;
        let jitter_seed = seed_generator.sample_multiple::<16>();
        proof {
            assert(jitter_seed@ =~= seed_at(master.seed(), master.position()));
        }
        let minus_half_to_half_uniform_generator = UniformF64BoundedRandomGenerator::new(
            Bounds::new(
                Scalar { bits: 0xBFE0_0000_0000_0000 },
                Scalar { bits: 0x3FE0_0000_0000_0000 },
            ),
            jitter_seed,
        );
        let mut fireflies: Vec<Firefly> = Vec::with_capacity(options.swarm_size);
        let mut index: usize = 0;
        while index < options.swarm_size
            invariant
                index <= options.swarm_size,
                fireflies.len() == index,
                initial_point.len() == problem.input_dimensions,
                evaluates_all(evaluate),
                forall|i: int|
                    0 <= i < index ==> (#[trigger] fireflies[i]).position@ == initial_point@
                        && evaluated(
                        evaluate,
                        initial_point@,
                        fireflies[i].objective_function_value,
                    ),
            decreases options.swarm_size - index,
        {
            let firefly = Firefly::new(copy_position(&initial_point), problem, evaluate);
            fireflies.push(firefly);
            index += 1;
        }
        let ghost made = fireflies@;
        let sorted = sort_descending(fireflies);
        proof {
            assert forall|i: int| 0 <= i < sorted.len() implies (#[trigger] sorted[i]).position@
                == initial_point@ && evaluated(
                evaluate,
                initial_point@,
                sorted[i].objective_function_value,
            ) by {
                assert(made.contains(sorted[i]));
            }
        }
        Self {
            problem: *problem,
            minus_half_to_half_uniform_generator,
            current_best_solution: None,
            options: *options,
            fireflies: sorted,
            current_movement_jitter_coefficient: options.movement_jitter_starting_coefficient,
            iterations_since_improvement: 0,
        }
    }

    /// How many fireflies the swarm has.
    pub fn swarm_size(&self) -> (r: usize)
        ensures
            r == self.population().len(),
            self.holds_together(),
    {
        proof {
            use_type_invariant(self);
        }
        self.fireflies.len()
    }

    /// The fireflies, from the worst to the best.
    pub fn fireflies(&self) -> (r: &Vec<Firefly>)
        ensures
            r@ == self.population(),
            self.holds_together(),
    {
        proof {
            use_type_invariant(self);
        }
        &self.fireflies
    }

    /// The best solution found so far, if any firefly has been looked at.
    pub fn current_best_solution(&self) -> (r: Option<PointValue>)
        ensures
            r is Some == self.best() is Some,
            r is Some ==> r.unwrap()@ == self.best().unwrap(),
            self.holds_together(),
    {
        proof {
            use_type_invariant(self);
        }
        match &self.current_best_solution {
            Some(point) => Some(point.duplicate()),
            None => None,
        }
    }

    /// The jitter coefficient with which the fireflies move next.
    pub fn current_movement_jitter_coefficient(&self) -> (r: Scalar)
        ensures
            r == self.jitter(),
    {
        self.current_movement_jitter_coefficient
    }

    /// How many iterations in a row have not found a better best solution.
    pub fn iterations_since_improvement(&self) -> (r: usize)
        ensures
            r == self.stagnation(),
    {
        self.iterations_since_improvement
    }

    /// Whether a point with the value `value` would replace the best
    /// solution.
    #[inline]
    pub fn is_better_than_minimum(&self, value: Scalar) -> (r: bool)
        ensures
            r == improves(value, self.best()),
    {
        match &self.current_best_solution {
            None => true,
            Some(point) => value.lt(point.value),
        }
    }

    /// Makes the point at `position` with the value `value` the best
    /// solution, whatever the best solution was.
    #[inline]
    pub fn update_minimum_value_unchecked(&mut self, value: Scalar, position: Vec<Scalar>)
        requires
            position.len() == old(self).problem().input_dimensions,
        ensures
            final(self).best() == Some(Candidate { position: position@, value }),
            final(self).population() == old(self).population(),
            final(self).jitter() == old(self).jitter(),
            final(self).stagnation() == old(self).stagnation(),
            final(self).options() == old(self).options(),
            final(self).problem() == old(self).problem(),
            final(self).jitter_stream() == old(self).jitter_stream(),
    {
        proof {
            use_type_invariant(&*self);
        }
        self.current_best_solution = Some(PointValue::new(position, value));
    }

    /// Performs one generation of movement.
    ///
    /// Every firefly, from the worst to the best, is copied; the copy looks
    /// at each firefly that stood after it before the iteration and moves
    /// towards it if that one's value is strictly smaller than the copy's
    /// own value at that moment. A copy that ends up strictly better than the
    /// best solution replaces it. The copies, sorted again from the worst to
    /// the best, are the swarm of the next iteration. Then the count of
    /// iterations without a better best solution is set back to 0 or raised
    /// by one, and the jitter coefficient is cooled or heated.
    pub fn perform_iteration<
        E: Fn(&Vec<Scalar>) -> Scalar,
        S: Fn(&[u8; 16], u128, Scalar, Scalar) -> Scalar,
        C: Fn(Expression) -> Scalar,
    >(&mut self, evaluate: &E, sample: &S, calculate: &C)
        requires
            evaluates_all(evaluate),
            samples_all(sample),
            calculates_all(calculate),
            old(self).stagnation() < usize::MAX,
        ensures
            final(self).holds_together(),
            final(self).options() == old(self).options(),
            final(self).problem() == old(self).problem(),
            final(self).population().len() == old(self).population().len(),
            final(self).jitter_stream().seed() == old(self).jitter_stream().seed(),
            final(self).jitter_stream().interval() == old(self).jitter_stream().interval(),
            exists|generation: Seq<Firefly>, product: Scalar| #[trigger]
                iteration_outcome(
                    evaluate,
                    sample,
                    calculate,
                    *old(self),
                    *final(self),
                    generation,
                    product,
                ),
            old(self).best() is Some ==> final(self).best() is Some && (final(self).best() == old(
                self,
            ).best() || final(self).best().unwrap().value.lt(old(self).best().unwrap().value)),
            old(self).population().len() > 0 ==> final(self).best() is Some,
            final(self).stagnation() <= old(self).stagnation() + 1,
    {
        proof {
            use_type_invariant(&*self);
        }
        let count: usize = self.fireflies.len();
        let bounds = self.problem.bounds;
        let options = self.options;
        let jitter = self.current_movement_jitter_coefficient;
        let mut generator = self.minus_half_to_half_uniform_generator;

        // Whether a better (smaller) value than the current best has been found in this iteration.
        let mut has_found_better = false;
        let mut new_firefly_swarm: Vec<Firefly> = Vec::with_capacity(count);

        let mut main_firefly_index: usize = 0;
        while main_firefly_index < count
            invariant
                main_firefly_index <= count,
                count == self.fireflies.len(),
                new_firefly_swarm.len() == main_firefly_index,
                evaluates_all(evaluate),
                samples_all(sample),
                calculates_all(calculate),
                self.well_formed(),
                self.fireflies@ == old(self).fireflies@,
                self.problem == old(self).problem,
                self.options == old(self).options,
                self.current_movement_jitter_coefficient == old(
                    self,
                ).current_movement_jitter_coefficient,
                self.iterations_since_improvement == old(self).iterations_since_improvement,
                self.minus_half_to_half_uniform_generator == old(
                    self,
                ).minus_half_to_half_uniform_generator,
                generator.seed() == old(self).minus_half_to_half_uniform_generator.seed(),
                generator.interval() == old(self).minus_half_to_half_uniform_generator.interval(),
                all_of_dimension(new_firefly_swarm@, self.problem.input_dimensions),
                self.best() == best_of(old(self).best(), new_firefly_swarm@),
                has_found_better == improved(old(self).best(), new_firefly_swarm@),
                forall|i: int|
                    0 <= i < main_firefly_index && brightest_of_rest(self.fireflies@, i) ==> (
                    #[trigger] new_firefly_swarm[i])@ == self.fireflies[i]@,
                bounds == old(self).problem.bounds,
                options == old(self).options,
                jitter == old(self).current_movement_jitter_coefficient,
                generation_through(
                    evaluate,
                    sample,
                    calculate,
                    *old(self),
                    new_firefly_swarm@,
                    main_firefly_index as int,
                    generator,
                ),
            decreases count - main_firefly_index,
        {
            let mut new_main_firefly = self.fireflies[main_firefly_index].duplicate();
            let ghost stream_before = generator;

            // The array is sorted, so all the worse fireflies are skipped.
            let mut brighter_index: usize = main_firefly_index + 1;
            while brighter_index < count
                invariant
                    main_firefly_index < brighter_index <= count,
                    count == self.fireflies.len(),
                    evaluates_all(evaluate),
                    samples_all(sample),
                    calculates_all(calculate),
                    all_of_dimension(self.fireflies@, self.problem.input_dimensions),
                    new_main_firefly.position.len() == self.problem.input_dimensions,
                    generator.seed() == old(self).minus_half_to_half_uniform_generator.seed(),
                    generator.interval() == old(
                        self,
                    ).minus_half_to_half_uniform_generator.interval(),
                    (forall|j: int|
                        main_firefly_index < j < brighter_index ==> !(
                        #[trigger] self.fireflies[j]).objective_function_value.lt(
                            self.fireflies[main_firefly_index as int].objective_function_value,
                        )) ==> new_main_firefly@ == self.fireflies[main_firefly_index as int]@,
                    self.fireflies@ == old(self).fireflies@,
                    bounds == old(self).problem.bounds,
                    options == old(self).options,
                    jitter == old(self).current_movement_jitter_coefficient,
                    moved_past(
                        evaluate,
                        sample,
                        calculate,
                        *old(self),
                        main_firefly_index as int,
                        brighter_index as int,
                        stream_before,
                        new_main_firefly@,
                        generator,
                    ),
                decreases count - brighter_index,
            {
                let ghost earlier = new_main_firefly@;
                let ghost earlier_stream = generator;
                // The main firefly still moves, so a firefly that was brighter at the start
                // of the iteration is not always brighter than the moving (main) firefly.
                if self.fireflies[brighter_index].objective_function_value.lt(
                    new_main_firefly.objective_function_value,
                ) {
                    new_main_firefly.move_towards(
                        &self.fireflies[brighter_index],
                        bounds,
                        &mut generator,
                        jitter,
                        &options,
                        evaluate,
                        sample,
                        calculate,
                    );
                }
                proof {
                    assert(looked_at(
                        evaluate,
                        sample,
                        calculate,
                        *old(self),
                        old(self).population()[brighter_index as int],
                        earlier,
                        earlier_stream,
                        new_main_firefly@,
                        generator,
                    ));
                    lemma_moved_past_step(
                        evaluate,
                        sample,
                        calculate,
                        *old(self),
                        main_firefly_index as int,
                        brighter_index + 1,
                        stream_before,
                        earlier,
                        earlier_stream,
                        new_main_firefly@,
                        generator,
                    );
                }
                brighter_index += 1;
            }

            // Update minimum value if improved.
            let ghost seen = new_firefly_swarm@;
            if self.is_better_than_minimum(new_main_firefly.objective_function_value) {
                self.update_minimum_value_unchecked(
                    new_main_firefly.objective_function_value,
                    copy_position(&new_main_firefly.position),
                );
                has_found_better = true;
            }
            new_firefly_swarm.push(new_main_firefly);
            proof {
                assert(new_firefly_swarm@.drop_last() =~= seen);
                lemma_generation_prefix(
                    evaluate,
                    sample,
                    calculate,
                    *old(self),
                    seen,
                    new_firefly_swarm@,
                    main_firefly_index as int,
                    stream_before,
                );
                lemma_generation_step(
                    evaluate,
                    sample,
                    calculate,
                    *old(self),
                    new_firefly_swarm@,
                    main_firefly_index + 1,
                    stream_before,
                    generator,
                );
            }
            main_firefly_index += 1;
        }

        // Re-sort the swarm in preparation of the next iteration.
        let ghost generation = new_firefly_swarm@;
        let sorted = sort_descending(new_firefly_swarm);
        proof {
            assert forall|i: int| 0 <= i < sorted.len() implies (#[trigger] sorted[i]).position.len()
                == self.problem.input_dimensions by {
                assert(generation.contains(sorted[i]));
            }
            lemma_best_of_improves(old(self).best(), generation);
        }
        self.fireflies = sorted;
        self.minus_half_to_half_uniform_generator = generator;

        if has_found_better {
            self.iterations_since_improvement = 0;
        } else {
            self.iterations_since_improvement += 1;
        }

        // Cool the jitter coefficient down while the swarm still makes progress,
        // and heat it back up when it does not.
        let factor = FireflySwarm::jitter_factor(&options, self.iterations_since_improvement);
        let product = calculate(Expression::Product(jitter, factor));
        self.current_movement_jitter_coefficient = FireflySwarm::next_jitter(
            &options,
            self.iterations_since_improvement,
            product,
        );
        proof {
            assert(iteration_outcome(
                evaluate,
                sample,
                calculate,
                *old(self),
                *self,
                generation,
                product,
            ));
        }
    }

    /// The factor by which the jitter coefficient is multiplied after an
    /// iteration that left the swarm `stagnation` iterations without a
    /// better best solution: the cooling factor below the threshold of the
    /// options, the heating factor from it on.
    pub fn jitter_factor(options: &FireflyRunOptions, stagnation: usize) -> (r: Scalar)
        ensures
            r == jitter_factor(*options, stagnation),
    {
        if stagnation < options.movement_jitter_min_stuck_runs_to_reheat {
            options.movement_jitter_cooling_factor
        } else {
            options.movement_jitter_heating_factor
        }
    }

    /// The jitter coefficient after an iteration, from the product of the
    /// coefficient before it and the factor of [`FireflySwarm::jitter_factor`].
    pub fn next_jitter(options: &FireflyRunOptions, stagnation: usize, product: Scalar) -> (r:
        Scalar)
        ensures
            r == next_jitter(*options, stagnation, product),
    {
        if stagnation < options.movement_jitter_min_stuck_runs_to_reheat {
            product.max(options.movement_jitter_minimum_coefficient)
        } else {
            product.min(options.movement_jitter_maximum_coefficient)
        }
    }
}

/// The jitter coefficient never leaves the range between its minimum and its
/// maximum: if it lies in the range, and multiplying it by the cooling factor
/// did not raise it or multiplying it by the heating factor did not lower
/// it, then the coefficient after the iteration lies in the range too.
pub proof fn lemma_jitter_stays_in_range(
    options: FireflyRunOptions,
    stagnation: usize,
    current: Scalar,
    product: Scalar,
)
    requires
        options.movement_jitter_minimum_coefficient.le(options.movement_jitter_maximum_coefficient),
        options.movement_jitter_minimum_coefficient.le(current),
        current.le(options.movement_jitter_maximum_coefficient),
        cools(options, stagnation) ==> !current.lt(product),
        !cools(options, stagnation) ==> !product.lt(current),
    ensures
        options.movement_jitter_minimum_coefficient.le(next_jitter(options, stagnation, product)),
        next_jitter(options, stagnation, product).le(options.movement_jitter_maximum_coefficient),
{
}

} // verus!
