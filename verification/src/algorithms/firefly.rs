//! The firefly swarm optimizer.
//!
//! A run drives one swarm through its iterations until it has done as many
//! as it may or has been stuck for too long. A full optimization strings
//! several independent runs together and may refine the best point that they
//! found with further runs that start there.

use vstd::prelude::*;
use crate::algorithms::common::arithmetic::{
    calculates_all,
    copy_position,
    evaluates_all,
    samples_all,
    Expression,
};
use crate::algorithms::common::rng::{
    lemma_wrapped_position_adds,
    lemma_wrapped_position_fits,
    wrapped_position,
    UniformU8RandomGenerator,
};
use crate::algorithms::common::structs::{Candidate, Minimum};
use crate::algorithms::firefly::options::{FireflyRunOptions, FullFireflyOptions};
use crate::algorithms::firefly::results::{
    FireflyFullOptimizationResult,
    FireflySingleRunOptimizationResult,
};
use crate::algorithms::firefly::swarm::{
    improves,
    lemma_best_of_improves,
    is_random_swarm,
    is_swarm_at_point,
    iteration_outcome,
    seed_at,
    FireflySwarm,
};
use crate::algorithms::firefly::individual_firefly::Firefly;
use crate::algorithms::firefly::utilities::{point_view, PointValue};
use crate::bbob::problem::BBOBProblem;
use crate::scalar::Scalar;

pub mod individual_firefly;
pub mod options;
pub mod results;
pub mod swarm;
pub mod utilities;

verus! {

/// Why a run or a full optimization has nothing to hand back.
#[derive(Clone, Copy, Debug, PartialEq, Eq, Structural)]
pub enum FireflyError {
    /// A run never evaluated a firefly, so it has no best solution: its
    /// swarm is empty or it may not perform any iteration. It says how many
    /// iterations it performed all the same.
    InvalidSwarm { iterations_performed: usize },
    /// A full optimization was asked for no restart at all.
    NoSolution,
}

impl FireflyError {
    /// How many iterations the run that failed performed; 0 for a full
    /// optimization.
    pub open spec fn spec_iterations_performed(self) -> usize {
        match self {
            FireflyError::InvalidSwarm { iterations_performed } => iterations_performed,
            FireflyError::NoSolution => 0,
        }
    }

    /// What the error says, as text.
    pub open spec fn spec_message(self) -> Seq<char> {
        match self {
            FireflyError::InvalidSwarm { .. } => "BUG: Invalid swarm, no solution!"@,
            FireflyError::NoSolution => "Invalid firefly optimization run: no solution!"@,
        }
    }

    /// How many iterations the run that failed performed; 0 for a full
    /// optimization.
    #[verifier::when_used_as_spec(spec_iterations_performed)]
    pub fn iterations_performed(self) -> (r: usize)
        ensures
            r == self.spec_iterations_performed(),
    {
        match self {
            FireflyError::InvalidSwarm { iterations_performed } => iterations_performed,
            FireflyError::NoSolution => 0,
        }
    }

    /// What the error says, as text.
    pub fn message(&self) -> (r: String)
        ensures
            r@ == self.spec_message(),
    {
        let text: &str = match self {
            FireflyError::InvalidSwarm { .. } => "BUG: Invalid swarm, no solution!",
            FireflyError::NoSolution => "Invalid firefly optimization run: no solution!",
        };
        text.to_owned()
    }
}

/// Whether a swarm `before` may become `after` by one iteration.
pub open spec fn iterated<
    E: Fn(&Vec<Scalar>) -> Scalar,
    S: Fn(&[u8; 16], u128, Scalar, Scalar) -> Scalar,
    C: Fn(Expression) -> Scalar,
>(evaluate: &E, sample: &S, calculate: &C, before: FireflySwarm, after: FireflySwarm) -> bool {
    &&& after.holds_together()
    &&& after.options() == before.options()
    &&& after.problem() == before.problem()
    &&& exists|generation: Seq<Firefly>, product: Scalar| #[trigger]
        iteration_outcome(evaluate, sample, calculate, before, after, generation, product)
}

/// Whether `trace` holds the states of a swarm through a whole run under
/// `options`, from the swarm that the run began with to the one it ended
/// with: each state follows from the one before it by one iteration, the run
/// does not go on once the swarm has been stuck for as many iterations as the
/// options tolerate, and it ends only then or after the most iterations that
/// the options allow.
pub open spec fn run_trace<
    E: Fn(&Vec<Scalar>) -> Scalar,
    S: Fn(&[u8; 16], u128, Scalar, Scalar) -> Scalar,
    C: Fn(Expression) -> Scalar,
>(
    evaluate: &E,
    sample: &S,
    calculate: &C,
    options: FireflyRunOptions,
    trace: Seq<FireflySwarm>,
) -> bool {
    &&& 1 <= trace.len() <= options.maximum_iterations + 1
    &&& forall|k: int|
        0 <= k < trace.len() - 1 ==> iterated(
            evaluate,
            sample,
            calculate,
            #[trigger] trace[k],
            trace[k + 1],
        )
    &&& forall|k: int|
        0 < k < trace.len() - 1 ==> (#[trigger] trace[k]).stagnation()
            < options.consider_stuck_after_n_iterations
    &&& (trace.len() == options.maximum_iterations + 1 || (trace.len() > 1
        && trace.last().stagnation() >= options.consider_stuck_after_n_iterations))
}

/// Throughout a run the swarm has exactly as many fireflies as its options
/// say: after any number of iterations the population is as large as at the
/// start.
pub proof fn lemma_run_keeps_swarm_size<
    E: Fn(&Vec<Scalar>) -> Scalar,
    S: Fn(&[u8; 16], u128, Scalar, Scalar) -> Scalar,
    C: Fn(Expression) -> Scalar,
>(
    evaluate: &E,
    sample: &S,
    calculate: &C,
    options: FireflyRunOptions,
    trace: Seq<FireflySwarm>,
    k: int,
)
    requires
        run_trace(evaluate, sample, calculate, options, trace),
        trace[0].holds_together(),
        0 <= k < trace.len(),
    ensures
        trace[k].population().len() == trace[0].population().len(),
        trace[k].population().len() == trace[0].options().swarm_size,
        trace[k].options() == trace[0].options(),
    decreases k,
{
    if k > 0 {
        lemma_run_keeps_swarm_size(evaluate, sample, calculate, options, trace, k - 1);
        assert(iterated(evaluate, sample, calculate, trace[k - 1], trace[k - 1 + 1]));
    }
}

/// The best solution never gets worse over the course of a run: once there
/// is one, every later state has one, and it is the same or has a strictly
/// smaller value.
pub proof fn lemma_run_improves_best<
    E: Fn(&Vec<Scalar>) -> Scalar,
    S: Fn(&[u8; 16], u128, Scalar, Scalar) -> Scalar,
    C: Fn(Expression) -> Scalar,
>(
    evaluate: &E,
    sample: &S,
    calculate: &C,
    options: FireflyRunOptions,
    trace: Seq<FireflySwarm>,
    earlier: int,
    later: int,
)
    requires
        run_trace(evaluate, sample, calculate, options, trace),
        0 <= earlier <= later < trace.len(),
        trace[earlier].best() is Some,
    ensures
        trace[later].best() is Some,
        trace[later].best() == trace[earlier].best() || trace[later].best().unwrap().value.lt(
            trace[earlier].best().unwrap().value,
        ),
    decreases later - earlier,
{
    if earlier < later {
        lemma_run_improves_best(evaluate, sample, calculate, options, trace, earlier, later - 1);
        assert(iterated(evaluate, sample, calculate, trace[later - 1], trace[later - 1 + 1]));
        let (generation, product) = choose|generation: Seq<Firefly>, product: Scalar| #[trigger]
            iteration_outcome(
                evaluate,
                sample,
                calculate,
                trace[later - 1],
                trace[later],
                generation,
                product,
            );
        lemma_best_of_improves(trace[later - 1].best(), generation);
        if trace[later].best() != trace[later - 1].best() && trace[later - 1].best()
            != trace[earlier].best() {
            crate::scalar::lemma_lt_transitive(
                trace[later].best().unwrap().value,
                trace[later - 1].best().unwrap().value,
                trace[earlier].best().unwrap().value,
            );
        }
    }
}

/// Whether `result` is what a run that went through `trace` hands back: the
/// number of its iterations and the best solution of its last state, or the
/// error that there is none.
pub open spec fn run_result(
    trace: Seq<FireflySwarm>,
    result: Result<FireflySingleRunOptimizationResult, FireflyError>,
) -> bool {
    match result {
        Ok(outcome) => {
            &&& outcome.iterations_performed == trace.len() - 1
            &&& trace.last().best() == Some(outcome.minimum@)
        },
        Err(error) => {
            &&& error == (FireflyError::InvalidSwarm {
                iterations_performed: (trace.len() - 1) as usize,
            })
            &&& trace.last().best() is None
        },
    }
}

/// Runs `swarm` until it has performed the maximum number of iterations or
/// has gone without a better best solution for as many iterations as the
/// options tolerate, whichever comes first, and hands back the best solution
/// that it found.
///
/// The run has no solution only if no firefly was ever looked at: the swarm
/// had found none before, and it is empty or may not perform any iteration.
pub fn do_one_firefly_optimization_run_with_swarm<
    E: Fn(&Vec<Scalar>) -> Scalar,
    S: Fn(&[u8; 16], u128, Scalar, Scalar) -> Scalar,
    C: Fn(Expression) -> Scalar,
>(
    options: &FireflyRunOptions,
    swarm: FireflySwarm,
    evaluate: &E,
    sample: &S,
    calculate: &C,
) -> (r: Result<FireflySingleRunOptimizationResult, FireflyError>)
    requires
        evaluates_all(evaluate),
        samples_all(sample),
        calculates_all(calculate),
        swarm.stagnation() + options.maximum_iterations <= usize::MAX,
    ensures
        exists|trace: Seq<FireflySwarm>|
            {
                &&& #[trigger] run_trace(evaluate, sample, calculate, *options, trace)
                &&& trace[0] == swarm
                &&& run_result(trace, r)
            },
        r is Ok <==> swarm.best() is Some || (swarm.population().len() > 0
            && options.maximum_iterations > 0),
        r is Ok ==> r.unwrap().iterations_performed <= options.maximum_iterations
            && r.unwrap().minimum.position.len() == swarm.problem().input_dimensions,
        r is Ok && swarm.best() is Some ==> r.unwrap().minimum@ == swarm.best().unwrap()
            || r.unwrap().minimum.value.lt(swarm.best().unwrap().value),
{
    let mut swarm = swarm;
    let ghost start = swarm;
    let ghost mut trace: Seq<FireflySwarm> = seq![swarm];
    let mut iterations_performed: usize = 0;

    while iterations_performed < options.maximum_iterations
        invariant_except_break
            iterations_performed <= options.maximum_iterations,
            trace.len() == 1 || trace.last().stagnation()
                < options.consider_stuck_after_n_iterations,
        invariant
            evaluates_all(evaluate),
            samples_all(sample),
            calculates_all(calculate),
            trace.len() == iterations_performed + 1,
            iterations_performed <= options.maximum_iterations,
            trace[0] == start,
            trace.last() == swarm,
            start.stagnation() + options.maximum_iterations <= usize::MAX,
            swarm.stagnation() <= start.stagnation() + iterations_performed,
            swarm.problem() == start.problem(),
            swarm.population().len() == start.population().len(),
            forall|k: int|
                0 <= k < trace.len() - 1 ==> iterated(
            evaluate,
            sample,
            calculate,
            #[trigger] trace[k],
            trace[k + 1],
        ),
            forall|k: int|
                0 < k < trace.len() - 1 ==> (#[trigger] trace[k]).stagnation()
                    < options.consider_stuck_after_n_iterations,
            start.best() is Some ==> swarm.best() is Some && (swarm.best() == start.best()
                || swarm.best().unwrap().value.lt(start.best().unwrap().value)),
            iterations_performed > 0 && start.population().len() > 0 ==> swarm.best() is Some,
            start.population().len() == 0 ==> swarm.best() == start.best(),
            iterations_performed == 0 ==> swarm == start,
        ensures
            iterations_performed == options.maximum_iterations || (iterations_performed > 0
                && swarm.stagnation() >= options.consider_stuck_after_n_iterations),
        decreases options.maximum_iterations - iterations_performed,
    {
        iterations_performed += 1;

        // Perform a single iteration of the run.
        let ghost before = swarm;
        swarm.perform_iteration(evaluate, sample, calculate);
        proof {
            trace = trace.push(swarm);
            assert(iterated(evaluate, sample, calculate, before, swarm));
            assert forall|k: int| 0 <= k < trace.len() - 1 implies iterated(
                evaluate,
                sample,
                calculate,
                #[trigger] trace[k],
                trace[k + 1],
            ) by {
                if k < trace.len() - 2 {
                    assert(trace[k] == trace.drop_last()[k]);
                    assert(trace[k + 1] == trace.drop_last()[k + 1]);
                }
            }
            if start.best() is Some && swarm.best() != before.best() && before.best()
                != start.best() {
                crate::scalar::lemma_lt_transitive(
                    swarm.best().unwrap().value,
                    before.best().unwrap().value,
                    start.best().unwrap().value,
                );
            }
        }

        // If stuck for `consider_stuck_after_n_iterations` or more iterations, abort the run.
        if swarm.iterations_since_improvement() >= options.consider_stuck_after_n_iterations {
            break ;
        }
    }

    let best_solution = swarm.current_best_solution();
    proof {
        assert(run_trace(evaluate, sample, calculate, *options, trace));
    }
    match best_solution {
        Some(minimum) => {
            let result = Ok(FireflySingleRunOptimizationResult::new(iterations_performed, minimum));
            proof {
                assert(run_result(trace, result));
            }
            result
        },
        None => {
            let result = Err(FireflyError::InvalidSwarm { iterations_performed });
            proof {
                assert(run_result(trace, result));
            }
            result
        },
    }
}

/// Whether `options` let a run look at any firefly at all: its swarm is not
/// empty and it may perform an iteration.
pub open spec fn productive(options: FireflyRunOptions) -> bool {
    options.swarm_size > 0 && options.maximum_iterations > 0
}

/// Whether `result` is what an exploration run under `options` may hand
/// back when it takes its two seeds from byte `position` of the stream of
/// `seed` on: the first for the positions of its swarm, the second for its
/// jitter.
#[verifier::opaque]
pub open spec fn exploration_outcome<
    E: Fn(&Vec<Scalar>) -> Scalar,
    S: Fn(&[u8; 16], u128, Scalar, Scalar) -> Scalar,
    C: Fn(Expression) -> Scalar,
>(
    evaluate: &E,
    sample: &S,
    calculate: &C,
    problem: BBOBProblem,
    options: FireflyRunOptions,
    seed: Seq<u8>,
    position: nat,
    result: Result<FireflySingleRunOptimizationResult, FireflyError>,
) -> bool {
    exists|trace: Seq<FireflySwarm>|
        {
            &&& #[trigger] run_trace(evaluate, sample, calculate, options, trace)
            &&& is_random_swarm(
                evaluate,
                sample,
                problem,
                options,
                seed_at(seed, position),
                seed_at(seed, wrapped_position(position + 16int)),
                trace[0],
            )
            &&& run_result(trace, result)
        }
}

/// Whether `result` is what a refinement run under `options` may hand back
/// when all its fireflies start at `point` and it takes the seed of its
/// jitter from byte `position` of the stream of `seed` on.
#[verifier::opaque]
pub open spec fn refinement_outcome<
    E: Fn(&Vec<Scalar>) -> Scalar,
    S: Fn(&[u8; 16], u128, Scalar, Scalar) -> Scalar,
    C: Fn(Expression) -> Scalar,
>(
    evaluate: &E,
    sample: &S,
    calculate: &C,
    problem: BBOBProblem,
    options: FireflyRunOptions,
    seed: Seq<u8>,
    position: nat,
    point: Seq<Scalar>,
    result: Result<FireflySingleRunOptimizationResult, FireflyError>,
) -> bool {
    exists|trace: Seq<FireflySwarm>|
        {
            &&& #[trigger] run_trace(evaluate, sample, calculate, options, trace)
            &&& is_swarm_at_point(
                evaluate,
                problem,
                options,
                seed_at(seed, position),
                point,
                trace[0],
            )
            &&& run_result(trace, result)
        }
}

/// Performs one run that starts with all fireflies at `starting_point`. The
/// seed of its jitter is drawn from `seed_generator`.
pub fn do_one_firefly_optimization_run_with_starting_point<
    E: Fn(&Vec<Scalar>) -> Scalar,
    S: Fn(&[u8; 16], u128, Scalar, Scalar) -> Scalar,
    C: Fn(Expression) -> Scalar,
>(
    problem: &BBOBProblem,
    options: &FireflyRunOptions,
    seed_generator: &mut UniformU8RandomGenerator,
    starting_point: Vec<Scalar>,
    evaluate: &E,
    sample: &S,
    calculate: &C,
) -> (r: Result<FireflySingleRunOptimizationResult, FireflyError>)
    requires
        starting_point.len() == problem.input_dimensions,
        evaluates_all(evaluate),
        samples_all(sample),
        calculates_all(calculate),
    ensures
        refinement_outcome(
            evaluate,
            sample,
            calculate,
            *problem,
            *options,
            old(seed_generator).seed(),
            old(seed_generator).position(),
            starting_point@,
            r,
        ),
        r is Ok <==> productive(*options),
        r is Ok ==> r.unwrap().iterations_performed <= options.maximum_iterations
            && r.unwrap().minimum.position.len() == problem.input_dimensions,
        r is Err ==> r.unwrap_err().iterations_performed() <= options.maximum_iterations,
        final(seed_generator).seed() == old(seed_generator).seed(),
        final(seed_generator).position() == wrapped_position(
            old(seed_generator).position() + 16int,
        ),
{
    reveal(refinement_outcome);
    let swarm = FireflySwarm::initialize_at_point(
        problem,
        seed_generator,
        options,
        starting_point,
        evaluate,
    );
    do_one_firefly_optimization_run_with_swarm(options, swarm, evaluate, sample, calculate)
}

/// Performs one run that starts with the fireflies at random positions. The
/// seeds of the positions and of its jitter are drawn from `seed_generator`.
pub fn do_one_firefly_optimization_run<
    E: Fn(&Vec<Scalar>) -> Scalar,
    S: Fn(&[u8; 16], u128, Scalar, Scalar) -> Scalar,
    C: Fn(Expression) -> Scalar,
>(
    problem: &BBOBProblem,
    options: &FireflyRunOptions,
    seed_generator: &mut UniformU8RandomGenerator,
    evaluate: &E,
    sample: &S,
    calculate: &C,
) -> (r: Result<FireflySingleRunOptimizationResult, FireflyError>)
    requires
        evaluates_all(evaluate),
        samples_all(sample),
        calculates_all(calculate),
    ensures
        exploration_outcome(
            evaluate,
            sample,
            calculate,
            *problem,
            *options,
            old(seed_generator).seed(),
            old(seed_generator).position(),
            r,
        ),
        r is Ok <==> productive(*options),
        r is Ok ==> r.unwrap().iterations_performed <= options.maximum_iterations
            && r.unwrap().minimum.position.len() == problem.input_dimensions,
        r is Err ==> r.unwrap_err().iterations_performed() <= options.maximum_iterations,
        final(seed_generator).seed() == old(seed_generator).seed(),
        final(seed_generator).position() == wrapped_position(
            old(seed_generator).position() + 32int,
        ),
{
    reveal(exploration_outcome);
    let random_swarm = FireflySwarm::initialize_random(
        problem,
        seed_generator,
        options,
        evaluate,
        sample,
    );
    do_one_firefly_optimization_run_with_swarm(options, random_swarm, evaluate, sample, calculate)
}

/// The best solution after a run has handed back `outcome`: that of before,
/// unless the run found a strictly better one or there was none before.
pub open spec fn better_of(
    best: Option<Candidate>,
    outcome: FireflySingleRunOptimizationResult,
) -> Option<Candidate> {
    if improves(outcome.minimum.value, best) {
        Some(outcome.minimum@)
    } else {
        best
    }
}

/// Whether every run of `results` has a solution.
pub open spec fn all_succeeded(results: Seq<Result<FireflySingleRunOptimizationResult, FireflyError>>) -> bool {
    forall|i: int| 0 <= i < results.len() ==> (#[trigger] results[i]) is Ok
}

/// The best solution after the runs of `results`, which all have a
/// solution, one after the other, starting from `best`.
pub open spec fn best_after(best: Option<Candidate>, results: Seq<Result<FireflySingleRunOptimizationResult, FireflyError>>) -> Option<Candidate>
    decreases results.len(),
{
    if results.len() == 0 {
        best
    } else {
        better_of(best_after(best, results.drop_last()), results.last().unwrap())
    }
}

/// The best solution after several runs is no worse than that of any of
/// them: no run has a solution of a strictly smaller value.
pub proof fn lemma_best_after_is_least(
    best: Option<Candidate>,
    results: Seq<Result<FireflySingleRunOptimizationResult, FireflyError>>,
    k: int,
)
    requires
        all_succeeded(results),
        0 <= k < results.len(),
    ensures
        best_after(best, results) is Some,
        !results[k].unwrap().minimum.value.lt(best_after(best, results).unwrap().value),
    decreases results.len(),
{
    let earlier = results.drop_last();
    let before = best_after(best, earlier);
    let last = results.last().unwrap();
    if k < results.len() - 1 {
        assert forall|i: int| 0 <= i < earlier.len() implies (#[trigger] earlier[i]) is Ok by {
            assert(earlier[i] == results[i]);
        }
        lemma_best_after_is_least(best, earlier, k);
        assert(earlier[k] == results[k]);
        if improves(last.minimum.value, before) && results[k].unwrap().minimum.value.lt(
            last.minimum.value,
        ) {
            crate::scalar::lemma_lt_transitive(
                results[k].unwrap().minimum.value,
                last.minimum.value,
                before.unwrap().value,
            );
        }
    }
}

/// The refinement runs that the options ask for; none if they ask for no
/// refinement.
pub open spec fn refinement_options(options: FullFireflyOptions) -> Seq<FireflyRunOptions> {
    match options.post_process_best_options {
        Some(runs) => runs@,
        None => Seq::empty(),
    }
}

/// Whether every run of `runs` lets a swarm look at a firefly.
pub open spec fn all_productive(runs: Seq<FireflyRunOptions>) -> bool {
    forall|i: int| 0 <= i < runs.len() ==> productive(#[trigger] runs[i])
}

/// Whether `explorations` is what the exploration runs of a full
/// optimization may hand back, as far as they are performed: run `i` takes
/// its seeds from byte `32 * i` of the stream of the options' seed on, and no
/// run is performed after one that has no solution.
pub open spec fn explorations_performed<
    E: Fn(&Vec<Scalar>) -> Scalar,
    S: Fn(&[u8; 16], u128, Scalar, Scalar) -> Scalar,
    C: Fn(Expression) -> Scalar,
>(
    evaluate: &E,
    sample: &S,
    calculate: &C,
    problem: BBOBProblem,
    options: FullFireflyOptions,
    explorations: Seq<Result<FireflySingleRunOptimizationResult, FireflyError>>,
) -> bool {
    &&& explorations.len() <= options.per_restart_options.len()
    &&& forall|i: int|
        0 <= i < explorations.len() ==> exploration_outcome(
            evaluate,
            sample,
            calculate,
            problem,
            options.per_restart_options[i],
            options.random_generator_seed@,
            wrapped_position(32 * i),
            #[trigger] explorations[i],
        )
    &&& forall|i: int| 0 <= i < explorations.len() - 1 ==> (#[trigger] explorations[i]) is Ok
    &&& explorations.len() < options.per_restart_options.len() ==> explorations.len() > 0
        && explorations.last() is Err
}

/// Whether `result` is what the exploration phase of a full optimization may
/// end with, given what its runs `explorations` handed back.
///
/// The phase fails with the error of the first run that has no solution, and
/// with [`FireflyError::NoSolution`] if there is no run at all. Otherwise it
/// hands back the iterations of each run and the best solution after all of
/// them.
pub open spec fn explored<
    E: Fn(&Vec<Scalar>) -> Scalar,
    S: Fn(&[u8; 16], u128, Scalar, Scalar) -> Scalar,
    C: Fn(Expression) -> Scalar,
>(
    evaluate: &E,
    sample: &S,
    calculate: &C,
    problem: BBOBProblem,
    options: FullFireflyOptions,
    explorations: Seq<Result<FireflySingleRunOptimizationResult, FireflyError>>,
    result: Result<(Seq<usize>, Candidate), FireflyError>,
) -> bool {
    &&& explorations_performed(evaluate, sample, calculate, problem, options, explorations)
    &&& match result {
        Err(error) => if explorations.len() == 0 {
            error == FireflyError::NoSolution
        } else {
            explorations.last() == Err::<FireflySingleRunOptimizationResult, FireflyError>(error)
        },
        Ok((iterations, best)) => {
            &&& explorations.len() > 0
            &&& all_succeeded(explorations)
            &&& iterations.len() == explorations.len()
            &&& forall|i: int|
                0 <= i < explorations.len() ==> #[trigger] iterations[i]
                    == explorations[i].unwrap().iterations_performed
            &&& best_after(None, explorations) == Some(best)
        },
    }
}

/// Whether `minimum` is what the first refinement runs make of the best
/// solution `explored` of the exploration phase, given what those runs,
/// `refinements`, handed back: every run has a solution, run `j` takes its
/// seed from where the exploration runs and the refinement runs before it
/// left the stream, and starts where the best solution stood before it;
/// `minimum` is the best solution after the last of them.
pub open spec fn refined_through<
    E: Fn(&Vec<Scalar>) -> Scalar,
    S: Fn(&[u8; 16], u128, Scalar, Scalar) -> Scalar,
    C: Fn(Expression) -> Scalar,
>(
    evaluate: &E,
    sample: &S,
    calculate: &C,
    problem: BBOBProblem,
    options: FullFireflyOptions,
    explored: Candidate,
    refinements: Seq<Result<FireflySingleRunOptimizationResult, FireflyError>>,
    minimum: Candidate,
) -> bool
    decreases refinements.len(),
{
    if refinements.len() == 0 {
        minimum == explored
    } else {
        &&& refinements.len() <= refinement_options(options).len()
        &&& refinements.last() is Ok
        &&& exists|before: Candidate|
            {
                &&& refined_through(
                    evaluate,
                    sample,
                    calculate,
                    problem,
                    options,
                    explored,
                    refinements.drop_last(),
                    before,
                )
                &&& refinement_outcome(
                    evaluate,
                    sample,
                    calculate,
                    problem,
                    refinement_options(options)[refinements.len() - 1],
                    options.random_generator_seed@,
                    wrapped_position(
                        32 * options.per_restart_options.len() + 16 * (refinements.len() - 1),
                    ),
                    before.position,
                    refinements.last(),
                )
                &&& #[trigger] better_of(Some(before), refinements.last().unwrap()) == Some(
                    minimum,
                )
            }
    }
}

/// One more refinement run with a solution extends what the runs before it
/// made of the best solution.
pub proof fn lemma_refined_step<
    E: Fn(&Vec<Scalar>) -> Scalar,
    S: Fn(&[u8; 16], u128, Scalar, Scalar) -> Scalar,
    C: Fn(Expression) -> Scalar,
>(
    evaluate: &E,
    sample: &S,
    calculate: &C,
    problem: BBOBProblem,
    options: FullFireflyOptions,
    explored: Candidate,
    refinements: Seq<Result<FireflySingleRunOptimizationResult, FireflyError>>,
    before: Candidate,
    minimum: Candidate,
)
    requires
        0 < refinements.len() <= refinement_options(options).len(),
        refinements.last() is Ok,
        refined_through(
            evaluate,
            sample,
            calculate,
            problem,
            options,
            explored,
            refinements.drop_last(),
            before,
        ),
        refinement_outcome(
            evaluate,
            sample,
            calculate,
            problem,
            refinement_options(options)[refinements.len() - 1],
            options.random_generator_seed@,
            wrapped_position(32 * options.per_restart_options.len() + 16 * (refinements.len() - 1)),
            before.position,
            refinements.last(),
        ),
        better_of(Some(before), refinements.last().unwrap()) == Some(minimum),
    ensures
        refined_through(
            evaluate,
            sample,
            calculate,
            problem,
            options,
            explored,
            refinements,
            minimum,
        ),
{
}

/// Whether `result` is what the refinement phase makes of the best solution
/// `explored` of the exploration phase, given what its runs `refinements`
/// handed back, as far as they are performed.
///
/// The phase fails with the error of the first run that has no solution; no
/// run is performed after it. Otherwise there is one run for each entry of
/// the refinement options, and the phase hands back the best solution after
/// all of them.
pub open spec fn refined<
    E: Fn(&Vec<Scalar>) -> Scalar,
    S: Fn(&[u8; 16], u128, Scalar, Scalar) -> Scalar,
    C: Fn(Expression) -> Scalar,
>(
    evaluate: &E,
    sample: &S,
    calculate: &C,
    problem: BBOBProblem,
    options: FullFireflyOptions,
    explored: Candidate,
    refinements: Seq<Result<FireflySingleRunOptimizationResult, FireflyError>>,
    result: Result<Candidate, FireflyError>,
) -> bool {
    match result {
        Ok(minimum) => {
            &&& refinements.len() == refinement_options(options).len()
            &&& refined_through(
                evaluate,
                sample,
                calculate,
                problem,
                options,
                explored,
                refinements,
                minimum,
            )
        },
        Err(error) => {
            &&& 0 < refinements.len() <= refinement_options(options).len()
            &&& refinements.last() == Err::<FireflySingleRunOptimizationResult, FireflyError>(
                error,
            )
            &&& exists|before: Candidate|
                {
                    &&& #[trigger] refined_through(
                        evaluate,
                        sample,
                        calculate,
                        problem,
                        options,
                        explored,
                        refinements.drop_last(),
                        before,
                    )
                    &&& refinement_outcome(
                        evaluate,
                        sample,
                        calculate,
                        problem,
                        refinement_options(options)[refinements.len() - 1],
                        options.random_generator_seed@,
                        wrapped_position(
                            32 * options.per_restart_options.len() + 16 * (refinements.len()
                                - 1),
                        ),
                        before.position,
                        refinements.last(),
                    )
                }
        },
    }
}

/// Whether `result` is what a full optimization under `options` may hand
/// back, given what its exploration runs and its refinement runs handed
/// back, as far as they were performed.
///
/// The optimization fails with the error of the first run, of either phase,
/// that has no solution, and it fails if it is asked for no restart. Otherwise
/// it lists the iterations of each exploration run and hands back the refined
/// best solution.
pub open spec fn optimization_outcome<
    E: Fn(&Vec<Scalar>) -> Scalar,
    S: Fn(&[u8; 16], u128, Scalar, Scalar) -> Scalar,
    C: Fn(Expression) -> Scalar,
>(
    evaluate: &E,
    sample: &S,
    calculate: &C,
    problem: BBOBProblem,
    options: FullFireflyOptions,
    explorations: Seq<Result<FireflySingleRunOptimizationResult, FireflyError>>,
    refinements: Seq<Result<FireflySingleRunOptimizationResult, FireflyError>>,
    result: Result<FireflyFullOptimizationResult, FireflyError>,
) -> bool {
    match result {
        Err(error) => {
            ||| refinements.len() == 0 && explored(
                evaluate,
                sample,
                calculate,
                problem,
                options,
                explorations,
                Err(error),
            )
            ||| exists|iterations: Seq<usize>, best: Candidate|
                {
                    &&& #[trigger] explored(
                        evaluate,
                        sample,
                        calculate,
                        problem,
                        options,
                        explorations,
                        Ok((iterations, best)),
                    )
                    &&& refined(
                        evaluate,
                        sample,
                        calculate,
                        problem,
                        options,
                        best,
                        refinements,
                        Err(error),
                    )
                }
        },
        Ok(outcome) => {
            exists|best: Candidate|
                {
                    &&& #[trigger] explored(
                        evaluate,
                        sample,
                        calculate,
                        problem,
                        options,
                        explorations,
                        Ok((outcome.iterations_performed_per_restart@, best)),
                    )
                    &&& refined(
                        evaluate,
                        sample,
                        calculate,
                        problem,
                        options,
                        best,
                        refinements,
                        Ok(outcome.minimum@),
                    )
                }
        },
    }
}

/// What the exploration phase hands back, as mathematics sees it.
pub open spec fn exploration_view(
    result: Result<(Vec<usize>, PointValue), FireflyError>,
) -> Result<(Seq<usize>, Candidate), FireflyError> {
    match result {
        Ok((iterations, best)) => Ok((iterations@, best@)),
        Err(error) => Err(error),
    }
}

/// What the refinement phase hands back, as mathematics sees it.
pub open spec fn refinement_view(result: Result<PointValue, FireflyError>) -> Result<
    Candidate,
    FireflyError,
> {
    match result {
        Ok(best) => Ok(best@),
        Err(error) => Err(error),
    }
}

/// The exploration phase of a full optimization: one run from random
/// positions for each entry of the restart options, as long as every run has
/// a solution. Hands back how many iterations each run performed and the best
/// solution of all runs.
fn run_explorations<
    E: Fn(&Vec<Scalar>) -> Scalar,
    S: Fn(&[u8; 16], u128, Scalar, Scalar) -> Scalar,
    C: Fn(Expression) -> Scalar,
>(
    problem: &BBOBProblem,
    options: &FullFireflyOptions,
    seed_generator: &mut UniformU8RandomGenerator,
    evaluate: &E,
    sample: &S,
    calculate: &C,
) -> (r: Result<(Vec<usize>, PointValue), FireflyError>)
    requires
        evaluates_all(evaluate),
        samples_all(sample),
        calculates_all(calculate),
        old(seed_generator).seed() == options.random_generator_seed@,
        old(seed_generator).position() == 0,
    ensures
        exists|explorations: Seq<Result<FireflySingleRunOptimizationResult, FireflyError>>| #[trigger]
            explored(
                evaluate,
                sample,
                calculate,
                *problem,
                *options,
                explorations,
                exploration_view(r),
            ),
        r is Ok <==> options.per_restart_options.len() > 0 && all_productive(
            options.per_restart_options@,
        ),
        r is Ok ==> {
            &&& r.unwrap().1.position.len() == problem.input_dimensions
            &&& r.unwrap().0.len() == options.per_restart_options.len()
            &&& forall|i: int|
                0 <= i < r.unwrap().0.len() ==> (#[trigger] r.unwrap().0[i])
                    <= options.per_restart_options[i].maximum_iterations
            &&& final(seed_generator).position() == wrapped_position(
                32 * options.per_restart_options.len(),
            )
        },
        final(seed_generator).seed() == options.random_generator_seed@,
{
    let total_restarts: usize = options.per_restart_options.len();
    let mut best_solution: Option<PointValue> = None;
    let mut iterations_performed_per_restart: Vec<usize> = Vec::with_capacity(total_restarts);
    let ghost mut explorations: Seq<Result<FireflySingleRunOptimizationResult, FireflyError>> = Seq::empty();
    proof {
        lemma_wrapped_position_fits(0);
    }

    let mut run_index: usize = 0;
    while run_index < total_restarts
        invariant
            run_index <= total_restarts,
            total_restarts == options.per_restart_options.len(),
            evaluates_all(evaluate),
            samples_all(sample),
            calculates_all(calculate),
            explorations.len() == run_index,
            iterations_performed_per_restart.len() == run_index,
            seed_generator.seed() == options.random_generator_seed@,
            seed_generator.position() == wrapped_position(32 * run_index),
            all_succeeded(explorations),
            forall|i: int|
                0 <= i < run_index ==> exploration_outcome(
                    evaluate,
                    sample,
                    calculate,
                    *problem,
                    options.per_restart_options[i],
                    options.random_generator_seed@,
                    wrapped_position(32 * i),
                    #[trigger] explorations[i],
                ),
            forall|i: int|
                0 <= i < run_index ==> #[trigger] iterations_performed_per_restart[i]
                    == explorations[i].unwrap().iterations_performed,
            forall|i: int|
                0 <= i < run_index ==> (#[trigger] iterations_performed_per_restart[i])
                    <= options.per_restart_options[i].maximum_iterations,
            forall|i: int| 0 <= i < run_index ==> productive(#[trigger] options.per_restart_options[i]),
            best_after(None, explorations) == point_view(best_solution),
            best_solution is Some ==> best_solution.unwrap().position.len()
                == problem.input_dimensions,
            run_index > 0 ==> best_solution is Some,
        decreases total_restarts - run_index,
    {
        let run_options = options.per_restart_options[run_index];
        let ghost earlier = explorations;
        let run_result = do_one_firefly_optimization_run(
            problem,
            &run_options,
            seed_generator,
            evaluate,
            sample,
            calculate,
        );
        proof {
            explorations = explorations.push(run_result);
            assert(explorations.drop_last() =~= earlier);
            assert(explorations.last() == run_result);
            lemma_wrapped_position_adds(32 * run_index, 32);
            assert(productive(options.per_restart_options[run_index as int]) == (run_result is Ok));
        }
        match run_result {
            Ok(outcome) => {
                iterations_performed_per_restart.push(outcome.iterations_performed);
                let replaces = match &best_solution {
                    Some(full_best_solution) => outcome.minimum.value.lt(
                        full_best_solution.value,
                    ),
                    None => true,
                };
                if replaces {
                    best_solution = Some(outcome.minimum);
                }
            },
            Err(error) => {
                let result = Err(error);
                proof {
                    assert(!productive(options.per_restart_options@[run_index as int]));
                    assert(explored(
                        evaluate,
                        sample,
                        calculate,
                        *problem,
                        *options,
                        explorations,
                        exploration_view(result),
                    ));
                }
                return result;
            },
        }
        run_index += 1;
    }
    match best_solution {
        Some(best) => {
            let result = Ok((iterations_performed_per_restart, best));
            proof {
                assert(explored(
                    evaluate,
                    sample,
                    calculate,
                    *problem,
                    *options,
                    explorations,
                    exploration_view(result),
                ));
            }
            result
        },
        None => {
            let result = Err(FireflyError::NoSolution);
            proof {
                assert(explored(
                    evaluate,
                    sample,
                    calculate,
                    *problem,
                    *options,
                    explorations,
                    exploration_view(result),
                ));
            }
            result
        },
    }
}

/// The refinement phase of a full optimization: one run for each entry of
/// the refinement options, each starting with all fireflies at the best
/// solution known by then, as long as every run has a solution. Hands back
/// the best solution after all runs, which is `best_solution` unless a run
/// found a strictly better one.
fn run_refinements<
    E: Fn(&Vec<Scalar>) -> Scalar,
    S: Fn(&[u8; 16], u128, Scalar, Scalar) -> Scalar,
    C: Fn(Expression) -> Scalar,
>(
    problem: &BBOBProblem,
    options: &FullFireflyOptions,
    seed_generator: &mut UniformU8RandomGenerator,
    best_solution: PointValue,
    evaluate: &E,
    sample: &S,
    calculate: &C,
) -> (r: Result<PointValue, FireflyError>)
    requires
        evaluates_all(evaluate),
        samples_all(sample),
        calculates_all(calculate),
        best_solution.position.len() == problem.input_dimensions,
        old(seed_generator).seed() == options.random_generator_seed@,
        old(seed_generator).position() == wrapped_position(
            32 * options.per_restart_options.len(),
        ),
    ensures
        exists|refinements: Seq<Result<FireflySingleRunOptimizationResult, FireflyError>>| #[trigger]
            refined(
                evaluate,
                sample,
                calculate,
                *problem,
                *options,
                best_solution@,
                refinements,
                refinement_view(r),
            ),
        r is Ok <==> all_productive(refinement_options(*options)),
        r is Ok ==> r.unwrap().position.len() == problem.input_dimensions && (r.unwrap()@
            == best_solution@ || r.unwrap().value.lt(best_solution.value)),
        final(seed_generator).seed() == options.random_generator_seed@,
{
    let ghost explored_best = best_solution@;
    let mut best_so_far = best_solution;
    let ghost mut refinements: Seq<Result<FireflySingleRunOptimizationResult, FireflyError>> = Seq::empty();
    let total_restarts: usize = options.per_restart_options.len();
    match &options.post_process_best_options {
        Some(post_processing_options) => {
            let total_postprocessing_runs: usize = post_processing_options.len();
            let mut post_processing_run_index: usize = 0;
            proof {
                lemma_wrapped_position_adds(32 * total_restarts, 0);
            }
            while post_processing_run_index < total_postprocessing_runs
                invariant
                    post_processing_run_index <= total_postprocessing_runs,
                    total_postprocessing_runs == post_processing_options.len(),
                    post_processing_options@ == refinement_options(*options),
                    total_restarts == options.per_restart_options.len(),
                    evaluates_all(evaluate),
                    samples_all(sample),
                    calculates_all(calculate),
                    refinements.len() == post_processing_run_index,
                    seed_generator.seed() == options.random_generator_seed@,
                    seed_generator.position() == wrapped_position(
                        32 * total_restarts + 16 * post_processing_run_index,
                    ),
                    explored_best == best_solution@,
                    best_so_far.position.len() == problem.input_dimensions,
                    best_so_far@ == explored_best || best_so_far.value.lt(explored_best.value),
                    forall|j: int|
                        0 <= j < post_processing_run_index ==> productive(
                            #[trigger] refinement_options(*options)[j],
                        ),
                    refined_through(
                        evaluate,
                        sample,
                        calculate,
                        *problem,
                        *options,
                        explored_best,
                        refinements,
                        best_so_far@,
                    ),
                decreases total_postprocessing_runs - post_processing_run_index,
            {
                let run_options = post_processing_options[post_processing_run_index];
                let ghost earlier = refinements;
                let ghost incoming = best_so_far@;
                let run_result = do_one_firefly_optimization_run_with_starting_point(
                    problem,
                    &run_options,
                    seed_generator,
                    copy_position(&best_so_far.position),
                    evaluate,
                    sample,
                    calculate,
                );
                proof {
                    refinements = refinements.push(run_result);
                    assert(refinements.drop_last() =~= earlier);
                    assert(refinements.last() == run_result);
                    lemma_wrapped_position_adds(
                        32 * total_restarts + 16 * post_processing_run_index,
                        16,
                    );
                }
                match run_result {
                    Ok(outcome) => {
                        if outcome.minimum.value.lt(best_so_far.value) {
                            proof {
                                if incoming != explored_best {
                                    crate::scalar::lemma_lt_transitive(
                                        outcome.minimum.value,
                                        incoming.value,
                                        explored_best.value,
                                    );
                                }
                            }
                            best_so_far = outcome.minimum;
                        }
                    },
                    Err(error) => {
                        let result = Err(error);
                        proof {
                            assert(!productive(
                                refinement_options(*options)[post_processing_run_index as int],
                            ));
                            assert(refined(
                                evaluate,
                                sample,
                                calculate,
                                *problem,
                                *options,
                                explored_best,
                                refinements,
                                refinement_view(result),
                            ));
                        }
                        return result;
                    },
                }
                proof {
                    lemma_refined_step(
                        evaluate,
                        sample,
                        calculate,
                        *problem,
                        *options,
                        explored_best,
                        refinements,
                        incoming,
                        best_so_far@,
                    );
                }
                post_processing_run_index += 1;
            }
        },
        None => {},
    }
    let result = Ok(best_so_far);
    proof {
        assert(refined(
            evaluate,
            sample,
            calculate,
            *problem,
            *options,
            explored_best,
            refinements,
            refinement_view(result),
        ));
    }
    result
}

/// Runs the firefly swarm over a problem: one exploration run for each entry
/// of the restart options, then one refinement run for each entry of the
/// refinement options, if there are any.
///
/// The exploration runs are independent: each starts from random positions
/// and with seeds of its own, drawn in turn from the stream of the options'
/// seed. The best solution is that of the first run until a later run finds
/// a strictly better one. Each refinement run starts with all its fireflies
/// at the best solution known by then and replaces it if it finds a strictly
/// better one.
///
/// A run whose swarm is empty, or which may not perform any iteration, looks
/// at no firefly and has no solution. That is an error of the options: the
/// optimization fails at once with the error of that run, whichever phase
/// the run belongs to, and performs no run after it. An optimization that is
/// asked for no restart fails too.
pub fn run_firefly_swarm_optimization<
    E: Fn(&Vec<Scalar>) -> Scalar,
    S: Fn(&[u8; 16], u128, Scalar, Scalar) -> Scalar,
    C: Fn(Expression) -> Scalar,
>(
    problem: &BBOBProblem,
    options: FullFireflyOptions,
    evaluate: &E,
    sample: &S,
    calculate: &C,
) -> (r: Result<FireflyFullOptimizationResult, FireflyError>)
    requires
        evaluates_all(evaluate),
        samples_all(sample),
        calculates_all(calculate),
    ensures
        exists|explorations: Seq<Result<FireflySingleRunOptimizationResult, FireflyError>>, refinements: Seq<Result<FireflySingleRunOptimizationResult, FireflyError>>| #[trigger]
            optimization_outcome(
                evaluate,
                sample,
                calculate,
                *problem,
                options,
                explorations,
                refinements,
                r,
            ),
        r is Ok <==> options.per_restart_options.len() > 0 && all_productive(
            options.per_restart_options@,
        ) && all_productive(refinement_options(options)),
        options.per_restart_options.len() == 0 ==> r == Err::<
            FireflyFullOptimizationResult,
            FireflyError,
        >(FireflyError::NoSolution),
        r is Ok ==> {
            &&& r.unwrap().iterations_performed_per_restart.len()
                == options.per_restart_options.len()
            &&& forall|i: int|
                0 <= i < options.per_restart_options.len() ==> (
                #[trigger] r.unwrap().iterations_performed_per_restart[i])
                    <= options.per_restart_options[i].maximum_iterations
            &&& r.unwrap().minimum.vector.len() == problem.input_dimensions
        },
{
    let mut seed_generator = UniformU8RandomGenerator::new(options.random_generator_seed);
    let exploration = run_explorations(
        problem,
        &options,
        &mut seed_generator,
        evaluate,
        sample,
        calculate,
    );
    let ghost explorations = choose|explorations: Seq<Result<FireflySingleRunOptimizationResult, FireflyError>>| #[trigger]
        explored(
            evaluate,
            sample,
            calculate,
            *problem,
            options,
            explorations,
            exploration_view(exploration),
        );
    let (iterations_performed_per_restart, best_solution) = match exploration {
        Ok(found) => found,
        Err(error) => {
            let result = Err(error);
            proof {
                assert(optimization_outcome(
                    evaluate,
                    sample,
                    calculate,
                    *problem,
                    options,
                    explorations,
                    Seq::empty(),
                    result,
                ));
            }
            return result;
        },
    };
    let ghost iterations = iterations_performed_per_restart@;
    let ghost explored_best = best_solution@;
    let refinement = run_refinements(
        problem,
        &options,
        &mut seed_generator,
        best_solution,
        evaluate,
        sample,
        calculate,
    );
    let ghost refinements = choose|refinements: Seq<Result<FireflySingleRunOptimizationResult, FireflyError>>| #[trigger]
        refined(
            evaluate,
            sample,
            calculate,
            *problem,
            options,
            explored_best,
            refinements,
            refinement_view(refinement),
        );
    let best_so_far = match refinement {
        Ok(best_so_far) => best_so_far,
        Err(error) => {
            let result = Err(error);
            proof {
                assert(explored(
                    evaluate,
                    sample,
                    calculate,
                    *problem,
                    options,
                    explorations,
                    Ok((iterations, explored_best)),
                ));
                assert(refined(
                    evaluate,
                    sample,
                    calculate,
                    *problem,
                    options,
                    explored_best,
                    refinements,
                    Err(error),
                ));
                assert(optimization_outcome(
                    evaluate,
                    sample,
                    calculate,
                    *problem,
                    options,
                    explorations,
                    refinements,
                    result,
                ));
            }
            return result;
        },
    };

    let final_optimization_solution: Minimum = Minimum::new(
        best_so_far.value,
        best_so_far.position,
    );
    let result = Ok(
        FireflyFullOptimizationResult::new(
            iterations_performed_per_restart,
            final_optimization_solution,
        ),
    );
    proof {
        assert(explored(
            evaluate,
            sample,
            calculate,
            *problem,
            options,
            explorations,
            Ok((iterations, explored_best)),
        ));
        assert(refined(
            evaluate,
            sample,
            calculate,
            *problem,
            options,
            explored_best,
            refinements,
            Ok(result.unwrap().minimum@),
        ));
        assert(result.unwrap().iterations_performed_per_restart@ == iterations);
        assert(optimization_outcome(
            evaluate,
            sample,
            calculate,
            *problem,
            options,
            explorations,
            refinements,
            result,
        ));
    }
    result
}

} // verus!
