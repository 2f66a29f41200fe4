//! Simulated annealing: a random walk that cools down, followed by a local
//! search from the best point that the walk has seen.

use vstd::prelude::*;
use crate::algorithms::common::arithmetic::{
    calculated,
    calculates_all,
    copy_position,
    evaluated,
    evaluates_all,
    samples_all,
    Expression,
};
use crate::algorithms::common::rng::{
    choose_random,
    UniformF64BoundedRandomGenerator,
    UniformIndexGenerator,
    UniformU8RandomGenerator,
};
use crate::algorithms::common::structs::{Candidate, Minimum, State};
use crate::algorithms::simulated_annealing::neighborhood_generation::{
    is_ls_neighborhood,
    is_sa_neighborhood,
    LocalSearchNeighborhood,
    SANeighborhood,
};
use crate::algorithms::simulated_annealing::options::SAOptions;
use crate::bbob::problem::BBOBProblem;
use crate::scalar::Scalar;

verus! {

/// How many of the latest best values the local search compares to tell
/// whether its progress has flattened.
pub const WINDOW: usize = 10;

/// The number 0.01: best values that differ by no more are similar.
pub open spec fn tolerance() -> Scalar {
    Scalar { bits: 0x3F84_7AE1_47AE_147B }
}

/// The number 1e-15: the local search ends when its step falls below it.
pub open spec fn step_floor() -> Scalar {
    Scalar { bits: 0x3CD2_03AF_9EE7_5616 }
}

/// The number 1: a step of at most this is shrunk by multiplying, a larger
/// one by subtracting.
pub open spec fn small_step() -> Scalar {
    Scalar { bits: 0x3FF0_0000_0000_0000 }
}

/// Why simulated annealing cannot run.
#[derive(Clone, Copy, Debug, PartialEq, Eq, Structural)]
pub enum SAError {
    /// The options ask to move along more dimensions than the problem has.
    TooManyDimensions,
}

impl SAError {
    /// What the error says, as text.
    pub open spec fn spec_message(self) -> Seq<char> {
        "The options ask for more dimensions than the problem has!"@
    }

    /// What the error says, as text.
    pub fn message(&self) -> (r: String)
        ensures
            r@ == self.spec_message(),
    {
        "The options ask for more dimensions than the problem has!".to_owned()
    }
}

/// Whether `distance` is within the tolerance: its magnitude is not above
/// 0.01. What is not a number is within the tolerance.
pub open spec fn is_close(distance: Scalar) -> bool {
    !tolerance().lt(distance.abs())
}

/// Whether `first` and `second` may be found similar: a difference of theirs
/// that `calculate` may give is within the tolerance.
pub open spec fn found_similar<C: Fn(Expression) -> Scalar>(
    calculate: &C,
    first: Scalar,
    second: Scalar,
) -> bool {
    exists|distance: Scalar| #[trigger]
        calculated(calculate, Expression::Difference(first, second), distance) && is_close(
            distance,
        )
}

/// Whether `first` and `second` may be found apart: a difference of theirs
/// that `calculate` may give is beyond the tolerance.
pub open spec fn found_apart<C: Fn(Expression) -> Scalar>(
    calculate: &C,
    first: Scalar,
    second: Scalar,
) -> bool {
    exists|distance: Scalar| #[trigger]
        calculated(calculate, Expression::Difference(first, second), distance) && !is_close(
            distance,
        )
}

/// Whether all values of `window` may be found similar to each other: for
/// every two of them, a difference that `calculate` may give is within the
/// tolerance.
pub open spec fn window_similar<C: Fn(Expression) -> Scalar>(calculate: &C, window: Seq<Scalar>) -> bool {
    forall|i: int, j: int|
        0 <= i < window.len() && 0 <= j < window.len() ==> found_similar(
            calculate,
            #[trigger] window[i],
            #[trigger] window[j],
        )
}

/// Whether two values of `window` may be found apart from each other.
pub open spec fn window_apart<C: Fn(Expression) -> Scalar>(calculate: &C, window: Seq<Scalar>) -> bool {
    exists|i: int, j: int|
        0 <= i < window.len() && 0 <= j < window.len() && found_apart(
            calculate,
            #[trigger] window[i],
            #[trigger] window[j],
        )
}

/// Whether a difference of two best values is within the tolerance of 0.01.
pub fn within_tolerance(distance: Scalar) -> (r: bool)
    ensures
        r == is_close(distance),
{
    !(Scalar { bits: 0x3F84_7AE1_47AE_147B }).lt(distance.abs())
}

/// Whether the last ten best values are all similar to each other: every
/// value is compared with every other. Fewer than ten values are never
/// similar.
pub fn check_last_10_similar<C: Fn(Expression) -> Scalar>(last_10: &Vec<Scalar>, calculate: &C) -> (r:
    bool)
    requires
        calculates_all(calculate),
    ensures
        last_10.len() < WINDOW ==> !r,
        r ==> window_similar(calculate, last_10@),
        !r && last_10.len() >= WINDOW ==> window_apart(calculate, last_10@),
{
    if last_10.len() < WINDOW {
        return false;
    }
    let mut i: usize = 0;
    while i < last_10.len()
        invariant
            i <= last_10.len(),
            last_10.len() >= WINDOW,
            calculates_all(calculate),
            forall|k: int, l: int|
                0 <= k < i && 0 <= l < last_10.len() ==> found_similar(
                    calculate,
                    #[trigger] last_10[k],
                    #[trigger] last_10[l],
                ),
        decreases last_10.len() - i,
    {
        let mut j: usize = 0;
        while j < last_10.len()
            invariant
                i < last_10.len(),
                j <= last_10.len(),
                last_10.len() >= WINDOW,
                calculates_all(calculate),
                forall|l: int|
                    0 <= l < j ==> found_similar(calculate, last_10[i as int], #[trigger] last_10[l]),
            decreases last_10.len() - j,
        {
            let distance = calculate(Expression::Difference(last_10[i], last_10[j]));
            proof {
                assert(calculated(
                    calculate,
                    Expression::Difference(last_10@[i as int], last_10@[j as int]),
                    distance,
                ));
            }
            if !within_tolerance(distance) {
                proof {
                    assert(found_apart(calculate, last_10[i as int], last_10[j as int]));
                }
                return false;
            }
            j += 1;
        }
        i += 1;
    }
    true
}

/// Whether `shrunk` is what `calculate` may give for a step that has been
/// shrunk: `step` times `decrease` if the step is at most 1, and `step` minus
/// `decrease` otherwise.
pub open spec fn shrunk<C: Fn(Expression) -> Scalar>(
    calculate: &C,
    step: Scalar,
    decrease: Scalar,
    shrunk: Scalar,
) -> bool {
    calculated(
        calculate,
        if step.le(small_step()) {
            Expression::Product(step, decrease)
        } else {
            Expression::Difference(step, decrease)
        },
        shrunk,
    )
}

/// The step of the local search after its progress has flattened: a step of
/// at most 1 is multiplied by `decrease`, a larger one has `decrease`
/// subtracted.
pub fn shrink_step<C: Fn(Expression) -> Scalar>(step: Scalar, decrease: Scalar, calculate: &C) -> (r:
    Scalar)
    requires
        calculates_all(calculate),
    ensures
        shrunk(calculate, step, decrease, r),
{
    if step.le(Scalar { bits: 0x3FF0_0000_0000_0000 }) {
        calculate(Expression::Product(step, decrease))
    } else {
        calculate(Expression::Difference(step, decrease))
    }
}

/// The best point after the first `upto` points of `states` have been looked
/// at with the values `values`, starting from `minimal`: each one replaces
/// the best point exactly when its value is strictly smaller.
pub open spec fn least_of(
    minimal: Candidate,
    states: Seq<State>,
    values: Seq<Scalar>,
    upto: nat,
) -> Candidate
    decreases upto,
{
    if upto == 0 {
        minimal
    } else {
        let before = least_of(minimal, states, values, (upto - 1) as nat);
        if values[upto - 1].lt(before.value) {
            Candidate { position: states[upto - 1].vector@, value: values[upto - 1] }
        } else {
            before
        }
    }
}

/// The best point depends only on the values that are looked at.
pub proof fn lemma_least_of_prefix(
    minimal: Candidate,
    states: Seq<State>,
    first: Seq<Scalar>,
    second: Seq<Scalar>,
    upto: nat,
)
    requires
        upto <= first.len(),
        upto <= second.len(),
        forall|k: int| 0 <= k < upto ==> first[k] == second[k],
    ensures
        least_of(minimal, states, first, upto) == least_of(minimal, states, second, upto),
    decreases upto,
{
    if upto > 0 {
        lemma_least_of_prefix(minimal, states, first, second, (upto - 1) as nat);
    }
}

/// The best point is no worse than any point that was looked at: none has
/// a strictly smaller value.
pub proof fn lemma_least_of_is_least(
    minimal: Candidate,
    states: Seq<State>,
    values: Seq<Scalar>,
    upto: nat,
    k: int,
)
    requires
        upto <= values.len(),
        0 <= k < upto,
    ensures
        !values[k].lt(least_of(minimal, states, values, upto).value),
    decreases upto,
{
    let before = least_of(minimal, states, values, (upto - 1) as nat);
    if k < upto - 1 {
        lemma_least_of_is_least(minimal, states, values, (upto - 1) as nat, k);
        if values[upto - 1].lt(before.value) && values[k].lt(values[upto - 1]) {
            crate::scalar::lemma_lt_transitive(values[k], values[upto - 1], before.value);
        }
    }
}

/// Whether `after` is what evaluating every state of `states` may make of
/// the best point `before`.
pub open spec fn scanned<E: Fn(&Vec<Scalar>) -> Scalar>(
    evaluate: &E,
    states: Seq<State>,
    before: Candidate,
    after: Candidate,
) -> bool {
    exists|values: Seq<Scalar>|
        {
            &&& values.len() == states.len()
            &&& forall|k: int|
                0 <= k < states.len() ==> evaluated(evaluate, states[k].vector@, #[trigger] values[k])
            &&& #[trigger] least_of(before, states, values, states.len()) == after
        }
}

/// Evaluates every state of `states` and hands back the best point seen:
/// `minimal`, unless a state has a strictly smaller value.
pub fn scan_neighborhood<E: Fn(&Vec<Scalar>) -> Scalar>(
    states: &Vec<State>,
    minimal: State,
    evaluate: &E,
) -> (r: State)
    requires
        evaluates_all(evaluate),
    ensures
        scanned(evaluate, states@, minimal@, r@),
        r@ == minimal@ || r.objective_value.lt(minimal.objective_value),
        r@ == minimal@ || exists|k: int|
            0 <= k < states.len() && r.vector@ == (#[trigger] states[k]).vector@,
{
    let ghost start = minimal@;
    let mut minimal = minimal;
    let ghost mut values: Seq<Scalar> = Seq::empty();
    let mut k: usize = 0;
    while k < states.len()
        invariant
            k <= states.len(),
            evaluates_all(evaluate),
            values.len() == k,
            forall|j: int| 0 <= j < k ==> evaluated(evaluate, states[j].vector@, #[trigger] values[j]),
            minimal@ == least_of(start, states@, values, k as nat),
            minimal@ == start || minimal.objective_value.lt(start.value),
            minimal@ == start || exists|j: int|
                0 <= j < states.len() && minimal.vector@ == (#[trigger] states[j]).vector@,
        decreases states.len() - k,
    {
        let objective_value = evaluate(&states[k].vector);
        let ghost values_before = values;
        let ghost before = minimal@;
        proof {
            values = values.push(objective_value);
            lemma_least_of_prefix(start, states@, values_before, values, k as nat);
        }
        if objective_value.lt(minimal.objective_value) {
            proof {
                if before != start {
                    crate::scalar::lemma_lt_transitive(objective_value, before.value, start.value);
                }
            }
            minimal = State { vector: copy_position(&states[k].vector), objective_value };
        }
        k += 1;
    }
    minimal
}

/// Where a local search stands between two of its iterations.
pub struct LocalSearchProgress {
    /// The best point seen so far.
    pub minimal: State,
    /// The step by whose multiples the next iteration moves.
    pub step: Scalar,
    /// The best values after the last ten iterations, the latest at the
    /// iteration count modulo ten; zero where there has been no iteration.
    pub last_10_values: Vec<Scalar>,
    /// How many iterations have been performed.
    pub iterations: u64,
}

/// The options with `step` for the step of the local search.
pub open spec fn with_local_step(options: SAOptions, step: Scalar) -> SAOptions {
    SAOptions { initial_step_size_ls: step, ..options }
}

/// Whether the local search `before` may become `after` by one iteration
/// under `options`: the neighborhood of the best point is made with the step
/// of `before` and scanned, the best value is recorded in the window, and
/// the step is left alone or shrunk.
pub open spec fn ls_iterated<E: Fn(&Vec<Scalar>) -> Scalar, C: Fn(Expression) -> Scalar>(
    evaluate: &E,
    calculate: &C,
    problem: BBOBProblem,
    options: SAOptions,
    before: LocalSearchProgress,
    after: LocalSearchProgress,
) -> bool {
    &&& after.iterations == before.iterations + 1
    &&& exists|states: Seq<State>|
        {
            &&& #[trigger] is_ls_neighborhood(
                evaluate,
                calculate,
                before.minimal.vector@,
                problem.bounds,
                with_local_step(options, before.step),
                states,
            )
            &&& scanned(evaluate, states, before.minimal@, after.minimal@)
        }
    &&& after.last_10_values@ == before.last_10_values@.update(
        (before.iterations % (WINDOW as u64)) as int,
        after.minimal.objective_value,
    )
    &&& if after.step == before.step {
        window_apart(calculate, after.last_10_values@) || shrunk(
            calculate,
            before.step,
            options.ls_step_decrease,
            after.step,
        )
    } else {
        window_similar(calculate, after.last_10_values@) && shrunk(
            calculate,
            before.step,
            options.ls_step_decrease,
            after.step,
        )
    }
}

impl LocalSearchProgress {
    /// The local search that starts at `start_state` with the local step of
    /// the options and a window of zeros.
    pub fn new(start_state: &State, options: &SAOptions) -> (r: Self)
        ensures
            r.minimal@ == start_state@,
            r.step == options.initial_step_size_ls,
            r.last_10_values@ == Seq::new(WINDOW as nat, |k: int| Scalar::zero()),
            r.iterations == 0,
    {
        let mut last_10_values: Vec<Scalar> = Vec::with_capacity(WINDOW);
        let mut k: usize = 0;
        while k < WINDOW
            invariant
                k <= WINDOW,
                last_10_values.len() == k,
                forall|j: int| 0 <= j < k ==> #[trigger] last_10_values[j] == Scalar::zero(),
            decreases WINDOW - k,
        {
            last_10_values.push(Scalar::zero());
            k += 1;
        }
        proof {
            assert(last_10_values@ =~= Seq::new(WINDOW as nat, |k: int| Scalar::zero()));
        }
        Self {
            minimal: start_state.duplicate(),
            step: options.initial_step_size_ls,
            last_10_values,
            iterations: 0,
        }
    }

    /// Whether the search goes on: it has not performed the most iterations
    /// that the options allow, and its step is at least 1e-15.
    pub open spec fn spec_continues(&self, options: &SAOptions) -> bool {
        self.iterations < options.max_iterations_ls && step_floor().le(self.step)
    }

    /// Whether the search goes on: it has not performed the most iterations
    /// that the options allow, and its step is at least 1e-15.
    #[verifier::when_used_as_spec(spec_continues)]
    pub fn continues(&self, options: &SAOptions) -> (r: bool)
        ensures
            r == self.spec_continues(options),
    {
        self.iterations < options.max_iterations_ls && (Scalar { bits: 0x3CD2_03AF_9EE7_5616 }).le(
            self.step,
        )
    }

    /// Performs one iteration: makes the neighborhood of the best point,
    /// evaluates every state of it, keeps the best seen, records its value,
    /// and shrinks the step if the last ten best values are similar.
    pub fn advance<E: Fn(&Vec<Scalar>) -> Scalar, C: Fn(Expression) -> Scalar>(
        &mut self,
        problem: &BBOBProblem,
        options: &SAOptions,
        evaluate: &E,
        calculate: &C,
    )
        requires
            evaluates_all(evaluate),
            calculates_all(calculate),
            options.n_best_ls <= old(self).minimal.vector.len(),
            old(self).last_10_values.len() == WINDOW,
            old(self).iterations < u64::MAX,
        ensures
            ls_iterated(evaluate, calculate, *problem, *options, *old(self), *final(self)),
            final(self).last_10_values.len() == WINDOW,
            final(self).minimal.vector.len() == old(self).minimal.vector.len(),
            final(self).minimal@ == old(self).minimal@ || final(self).minimal.objective_value.lt(
                old(self).minimal.objective_value,
            ),
            problem.bounds.contains_all(old(self).minimal.vector@) ==> problem.bounds.contains_all(
                final(self).minimal.vector@,
            ),
    {
        let current_options = SAOptions { initial_step_size_ls: self.step, ..*options };
        let mut neighborhood = LocalSearchNeighborhood::new();
        neighborhood.generate_neighborhood(
            self.minimal.duplicate(),
            problem,
            current_options,
            evaluate,
            calculate,
        );
        let ghost states = neighborhood.states@;
        let ghost before = *self;
        let minimal = scan_neighborhood(&neighborhood.states, self.minimal.duplicate(), evaluate);
        let slot: usize = (self.iterations % (WINDOW as u64)) as usize;
        self.last_10_values[slot] = minimal.objective_value;
        self.minimal = minimal;
        if check_last_10_similar(&self.last_10_values, calculate) {
            self.step = shrink_step(self.step, options.ls_step_decrease, calculate);
        }
        self.iterations = self.iterations + 1;
        proof {
            assert(is_ls_neighborhood(
                evaluate,
                calculate,
                before.minimal.vector@,
                problem.bounds,
                with_local_step(*options, before.step),
                states,
            ));
            assert(scanned(evaluate, states, before.minimal@, self.minimal@));
        }
    }
}

/// The local search: hill climbing from `start_state`.
///
/// Each iteration looks at the whole neighborhood of the best point and
/// keeps the best state of it, if that is strictly better. When the last ten
/// best values are similar the step shrinks. The search ends after the most
/// iterations that the options allow, or when the step has fallen below
/// 1e-15. A search that may not perform any iteration hands its start back,
/// whatever the options say else. One that is to perform an iteration fails
/// if the options ask to move along more dimensions than the point has.
pub fn local_search<E: Fn(&Vec<Scalar>) -> Scalar, C: Fn(Expression) -> Scalar>(
    problem: &BBOBProblem,
    start_state: &State,
    options: SAOptions,
    evaluate: &E,
    calculate: &C,
) -> (r: Result<Minimum, SAError>)
    requires
        evaluates_all(evaluate),
        calculates_all(calculate),
    ensures
        search_outcome(evaluate, calculate, *problem, options, start_state@, minimum_view(r)),
        r is Err <==> search_fails(options, start_state.vector.len() as nat),
        r is Ok ==> r.unwrap().vector.len() == start_state.vector.len(),
        options.max_iterations_ls == 0 || !step_floor().le(options.initial_step_size_ls)
            ==> r is Ok && r.unwrap()@ == start_state@,
{
    let mut progress = LocalSearchProgress::new(start_state, &options);
    if progress.continues(&options) && options.n_best_ls > start_state.vector.len() {
        return Err(SAError::TooManyDimensions);
    }
    let ghost mut trace: Seq<LocalSearchProgress> = seq![progress];
    while progress.continues(&options)
        invariant
            evaluates_all(evaluate),
            calculates_all(calculate),
            progress.continues(&options) ==> options.n_best_ls <= start_state.vector.len(),
            !search_fails(options, start_state.vector.len() as nat),
            progress.last_10_values.len() == WINDOW,
            progress.minimal.vector.len() == start_state.vector.len(),
            progress.iterations <= options.max_iterations_ls,
            progress.minimal@ == start_state@ || progress.minimal.objective_value.lt(
                start_state.objective_value,
            ),
            problem.bounds.contains_all(start_state.vector@) ==> problem.bounds.contains_all(
                progress.minimal.vector@,
            ),
            trace.len() >= 1,
            trace.last() == progress,
            trace[0].minimal@ == start_state@,
            trace[0].step == options.initial_step_size_ls,
            trace[0].iterations == 0,
            forall|k: int|
                0 <= k < trace.len() - 1 ==> (#[trigger] trace[k]).continues(&options)
                    && ls_iterated(evaluate, calculate, *problem, options, trace[k], trace[k + 1]),
        decreases options.max_iterations_ls - progress.iterations,
    {
        let ghost before = progress;
        progress.advance(problem, &options, evaluate, calculate);
        proof {
            let ghost earlier = trace;
            trace = trace.push(progress);
            assert forall|k: int| 0 <= k < trace.len() - 1 implies (#[trigger] trace[k]).continues(
                &options,
            ) && ls_iterated(evaluate, calculate, *problem, options, trace[k], trace[k + 1]) by {
                if k < earlier.len() - 1 {
                    assert(trace[k] == earlier[k]);
                    assert(trace[k + 1] == earlier[k + 1]);
                } else {
                    assert(trace[k] == before);
                }
            }
            if before.minimal@ != start_state@ && progress.minimal@ != before.minimal@ {
                crate::scalar::lemma_lt_transitive(
                    progress.minimal.objective_value,
                    before.minimal.objective_value,
                    start_state.objective_value,
                );
            }
        }
    }
    let result = Minimum { vector: progress.minimal.vector, value: progress.minimal.objective_value };
    proof {
        assert(ls_trace(evaluate, calculate, *problem, options, trace));
        assert(trace.last().minimal@ == result@);
        assert(searched(evaluate, calculate, *problem, options, start_state@, result@));
    }
    Ok(result)
}

/// What a search hands back, as mathematics sees it.
pub open spec fn minimum_view(result: Result<Minimum, SAError>) -> Result<Candidate, SAError> {
    match result {
        Ok(minimum) => Ok(minimum@),
        Err(error) => Err(error),
    }
}

/// Whether a local search from a point with `dimensions` coordinates fails:
/// it is to perform an iteration, and the options ask it to move along more
/// dimensions than the point has.
pub open spec fn search_fails(options: SAOptions, dimensions: nat) -> bool {
    &&& options.n_best_ls > dimensions
    &&& options.max_iterations_ls > 0
    &&& step_floor().le(options.initial_step_size_ls)
}

/// Whether `result` is what a local search under `options` from the point
/// `start` may hand back: the error that there are too many dimensions if
/// the search fails, and otherwise the best point of a search that began at
/// `start`. That point is `start` or has a strictly smaller value, and it
/// lies within the bounds of the problem if `start` does.
pub open spec fn search_outcome<E: Fn(&Vec<Scalar>) -> Scalar, C: Fn(Expression) -> Scalar>(
    evaluate: &E,
    calculate: &C,
    problem: BBOBProblem,
    options: SAOptions,
    start: Candidate,
    result: Result<Candidate, SAError>,
) -> bool {
    match result {
        Err(error) => error == SAError::TooManyDimensions && search_fails(
            options,
            start.position.len(),
        ),
        Ok(minimum) => {
            &&& !search_fails(options, start.position.len())
            &&& searched(evaluate, calculate, problem, options, start, minimum)
            &&& minimum == start || minimum.value.lt(start.value)
            &&& minimum.position.len() == start.position.len()
            &&& problem.bounds.contains_all(start.position) ==> problem.bounds.contains_all(
                minimum.position,
            )
        },
    }
}

/// Whether `minimum` is what a local search under `options` may make of the
/// point `start`: it is the best point of the last state of a search that
/// began at `start` with the local step of the options.
pub open spec fn searched<E: Fn(&Vec<Scalar>) -> Scalar, C: Fn(Expression) -> Scalar>(
    evaluate: &E,
    calculate: &C,
    problem: BBOBProblem,
    options: SAOptions,
    start: Candidate,
    minimum: Candidate,
) -> bool {
    exists|trace: Seq<LocalSearchProgress>|
        {
            &&& #[trigger] ls_trace(evaluate, calculate, problem, options, trace)
            &&& trace[0].minimal@ == start
            &&& trace[0].step == options.initial_step_size_ls
            &&& trace[0].iterations == 0
            &&& trace.last().minimal@ == minimum
        }
}

/// Whether `trace` holds the states of a local search through a whole run
/// under `options`: each state follows from the one before it by one
/// iteration, the search goes on from every state but the last, and not from
/// the last.
pub open spec fn ls_trace<E: Fn(&Vec<Scalar>) -> Scalar, C: Fn(Expression) -> Scalar>(
    evaluate: &E,
    calculate: &C,
    problem: BBOBProblem,
    options: SAOptions,
    trace: Seq<LocalSearchProgress>,
) -> bool {
    &&& trace.len() >= 1
    &&& forall|k: int|
        0 <= k < trace.len() - 1 ==> (#[trigger] trace[k]).continues(&options) && ls_iterated(
            evaluate,
            calculate,
            problem,
            options,
            trace[k],
            trace[k + 1],
        )
    &&& !trace.last().continues(&options)
}

/// Where the global phase of simulated annealing stands between two of its
/// iterations.
pub struct AnnealingProgress {
    /// The point the walk is at.
    pub current: State,
    /// The best point ever seen.
    pub minimal: State,
    /// The temperature.
    pub temperature: Scalar,
    /// How many iterations have been performed.
    pub iterations: u64,
    /// The stream of numbers from which the start was drawn and the
    /// acceptance of worse points is drawn.
    pub generator: UniformF64BoundedRandomGenerator,
    /// The stream of indices with which a point of a neighborhood is chosen.
    pub chooser: UniformIndexGenerator,
}

/// The seed of the stream with which points of neighborhoods are chosen: the
/// first 16 bytes of the byte stream of the seed of the options.
pub open spec fn chooser_seed(options: SAOptions) -> Seq<u8> {
    Seq::new(
        16,
        |k: int|
            crate::algorithms::common::rng::stream_byte(
                options.seed@,
                crate::algorithms::common::rng::wrapped_position(k),
            ),
    )
}

/// Whether `probability` is what `calculate` may give for the probability
/// with which a walk at a point with the value `current` moves on to one
/// with the value `next` at the temperature `temperature`: the exponential of
/// minus the rise of the value over the temperature.
pub open spec fn acceptance<C: Fn(Expression) -> Scalar>(
    calculate: &C,
    next: Scalar,
    current: Scalar,
    temperature: Scalar,
    probability: Scalar,
) -> bool {
    exists|rise: Scalar, exponent: Scalar|
        {
            &&& #[trigger] calculated(calculate, Expression::Difference(next, current), rise)
            &&& #[trigger] calculated(
                calculate,
                Expression::Quotient(rise.neg(), temperature),
                exponent,
            )
            &&& calculated(calculate, Expression::Exponential(exponent), probability)
        }
}

/// Whether `unit` is what the next draw of `generator`, brought to `[0, 1]`,
/// may be.
pub open spec fn unit_draw<
    S: Fn(&[u8; 16], u128, Scalar, Scalar) -> Scalar,
    C: Fn(Expression) -> Scalar,
>(sample: &S, calculate: &C, generator: UniformF64BoundedRandomGenerator, unit: Scalar) -> bool {
    exists|drawn: Scalar| #[trigger]
        crate::algorithms::common::arithmetic::sampled(
            sample,
            generator.seed(),
            generator.draws(),
            generator.interval().lower(),
            generator.interval().upper(),
            drawn,
        ) && crate::algorithms::common::rng::rescaled(
            calculate,
            generator.interval().lower(),
            generator.interval().upper(),
            drawn,
            unit,
        )
}

/// Whether the walk `before` may become `after` by looking at the point
/// `next` of a neighborhood.
///
/// A point that is strictly better than the best ever seen becomes the best
/// ever seen, and nothing else changes. Otherwise the walk moves on to the
/// point exactly when a draw from `[0, 1]` is at most the probability of
/// acceptance, and the temperature is multiplied by the annealing schedule.
pub open spec fn sa_looked<
    S: Fn(&[u8; 16], u128, Scalar, Scalar) -> Scalar,
    C: Fn(Expression) -> Scalar,
>(
    sample: &S,
    calculate: &C,
    options: SAOptions,
    before: AnnealingProgress,
    after: AnnealingProgress,
    next: Candidate,
) -> bool {
    if next.value.lt(before.minimal.objective_value) {
        &&& after.minimal@ == next
        &&& after.current@ == before.current@
        &&& after.temperature == before.temperature
        &&& after.generator == before.generator
    } else {
        &&& after.minimal@ == before.minimal@
        &&& calculated(
            calculate,
            Expression::Product(before.temperature, options.annealing_schedule),
            after.temperature,
        )
        &&& exists|probability: Scalar, unit: Scalar|
            {
                &&& #[trigger] acceptance(
                    calculate,
                    next.value,
                    before.current.objective_value,
                    before.temperature,
                    probability,
                )
                &&& #[trigger] unit_draw(sample, calculate, before.generator, unit)
                &&& after.current@ == if unit.le(probability) {
                    next
                } else {
                    before.current@
                }
            }
    }
}

/// The state of `states` that the next index of `chooser` chooses.
pub open spec fn chosen_of(chooser: UniformIndexGenerator, states: Seq<State>) -> State {
    states[crate::algorithms::common::rng::stream_index(
        chooser.seed(),
        chooser.draws(),
        states.len(),
    ) as int]
}

/// Whether the walk `before` may become `after` by choosing among `states`
/// when the chosen state, if there is one, has the value `value`: the walk
/// looks at the chosen state, or, if there is nothing to choose from, stays
/// as it is.
pub open spec fn sa_chose<
    E: Fn(&Vec<Scalar>) -> Scalar,
    S: Fn(&[u8; 16], u128, Scalar, Scalar) -> Scalar,
    C: Fn(Expression) -> Scalar,
>(
    evaluate: &E,
    sample: &S,
    calculate: &C,
    options: SAOptions,
    before: AnnealingProgress,
    after: AnnealingProgress,
    states: Seq<State>,
    value: Scalar,
) -> bool {
    if states.len() > 0 && before.chooser.draws() < u128::MAX {
        &&& crate::algorithms::common::rng::stream_index(
            before.chooser.seed(),
            before.chooser.draws(),
            states.len(),
        ) < states.len()
        &&& after.chooser.draws() == before.chooser.draws() + 1
        &&& evaluated(evaluate, chosen_of(before.chooser, states).vector@, value)
        &&& sa_looked(
            sample,
            calculate,
            options,
            before,
            after,
            Candidate { position: chosen_of(before.chooser, states).vector@, value },
        )
    } else {
        &&& after.chooser.draws() == before.chooser.draws()
        &&& after.minimal@ == before.minimal@
        &&& after.current@ == before.current@
        &&& after.temperature == before.temperature
        &&& after.generator == before.generator
    }
}

/// Whether the walk `after` stands within the bounds of the problem, with a
/// best point within them, if the walk `before` does.
pub open spec fn stays_within(
    problem: BBOBProblem,
    before: AnnealingProgress,
    after: AnnealingProgress,
) -> bool {
    problem.bounds.contains_all(before.current.vector@) && problem.bounds.contains_all(
        before.minimal.vector@,
    ) ==> problem.bounds.contains_all(after.current.vector@) && problem.bounds.contains_all(
        after.minimal.vector@,
    )
}

/// Whether the walk `before` may become `after` by one iteration under
/// `options`: the neighborhood of the point the walk is at is made, one of
/// its states is chosen by the next index of the chooser and evaluated, and
/// the walk looks at it. If the neighborhood is empty there is no viable
/// move, and only the iteration is counted. A walk that stands within the
/// bounds of the problem, with a best point within them, stays so.
pub open spec fn sa_iterated<
    E: Fn(&Vec<Scalar>) -> Scalar,
    S: Fn(&[u8; 16], u128, Scalar, Scalar) -> Scalar,
    C: Fn(Expression) -> Scalar,
>(
    evaluate: &E,
    sample: &S,
    calculate: &C,
    problem: BBOBProblem,
    options: SAOptions,
    before: AnnealingProgress,
    after: AnnealingProgress,
) -> bool {
    &&& after.iterations == before.iterations + 1
    &&& after.chooser.seed() == before.chooser.seed()
    &&& stays_within(problem, before, after)
    &&& exists|states: Seq<State>, value: Scalar|
        {
            &&& is_sa_neighborhood(
                evaluate,
                calculate,
                before.current.vector@,
                problem.bounds,
                options,
                states,
            )
            &&& #[trigger] sa_chose(
                evaluate,
                sample,
                calculate,
                options,
                before,
                after,
                states,
                value,
            )
        }
}

/// Whether `progress` is what a walk under `options` may start as: it
/// stands at a point whose coordinates are the first draws of the stream of
/// the options' seed over the bounds of the problem, that point is also the
/// best ever seen, and the temperature is the initial temperature.
pub open spec fn sa_started<
    E: Fn(&Vec<Scalar>) -> Scalar,
    S: Fn(&[u8; 16], u128, Scalar, Scalar) -> Scalar,
    C: Fn(Expression) -> Scalar,
>(
    evaluate: &E,
    sample: &S,
    calculate: &C,
    problem: BBOBProblem,
    options: SAOptions,
    progress: AnnealingProgress,
) -> bool {
    &&& progress.iterations == 0
    &&& progress.minimal@ == progress.current@
    &&& progress.current.vector.len() == problem.input_dimensions
    &&& forall|k: int|
        0 <= k < progress.current.vector.len() ==> crate::algorithms::common::arithmetic::sampled(
            sample,
            options.seed@,
            UniformF64BoundedRandomGenerator::draw_after(0, k),
            problem.bounds.lower(),
            problem.bounds.upper(),
            #[trigger] progress.current.vector[k],
        )
    &&& evaluated(evaluate, progress.current.vector@, progress.current.objective_value)
    &&& calculated(
        calculate,
        Expression::Count(options.initial_temperature as usize),
        progress.temperature,
    )
    &&& progress.generator.seed() == options.seed@
    &&& progress.generator.interval() == problem.bounds
    &&& progress.generator.draws() == UniformF64BoundedRandomGenerator::draw_after(
        0,
        problem.input_dimensions as int,
    )
    &&& progress.chooser.seed() == chooser_seed(options)
    &&& progress.chooser.draws() == 0
}

impl AnnealingProgress {
    /// The walk at its start: at a random point within the bounds of the
    /// problem, with the initial temperature.
    pub fn new<
        E: Fn(&Vec<Scalar>) -> Scalar,
        S: Fn(&[u8; 16], u128, Scalar, Scalar) -> Scalar,
        C: Fn(Expression) -> Scalar,
    >(problem: &BBOBProblem, options: &SAOptions, evaluate: &E, sample: &S, calculate: &C) -> (r:
        Self)
        requires
            evaluates_all(evaluate),
            samples_all(sample),
            calculates_all(calculate),
        ensures
            sa_started(evaluate, sample, calculate, *problem, *options, r),
    {
        let mut seeds = UniformU8RandomGenerator::new(options.seed);
        let choice_seed = seeds.sample_multiple::<16>();
        proof {
            assert(choice_seed@ =~= chooser_seed(*options)) by {
                assert forall|k: int| 0 <= k < 16 implies choice_seed@[k] == chooser_seed(
                    *options,
                )[k] by {
                    assert(choice_seed[k] == choice_seed@[k]);
                }
            }
        }
        let mut generator = UniformF64BoundedRandomGenerator::new(problem.bounds, options.seed);
        let start = generator.sample_multiple(problem.input_dimensions, sample);
        let objective_value = evaluate(&start);
        let current = State { vector: start, objective_value };
        let minimal = current.duplicate();
        let temperature = calculate(Expression::Count(options.initial_temperature as usize));
        Self {
            current,
            minimal,
            temperature,
            iterations: 0,
            generator,
            chooser: UniformIndexGenerator::new(choice_seed),
        }
    }

    /// Whether the walk goes on: it has not performed the most iterations
    /// that the options allow, and the temperature is above the minimum
    /// temperature.
    pub open spec fn spec_continues(&self, options: &SAOptions) -> bool {
        self.iterations < options.max_iterations_sa && options.min_temp.lt(self.temperature)
    }

    /// Whether the walk goes on: it has not performed the most iterations
    /// that the options allow, and the temperature is above the minimum
    /// temperature.
    #[verifier::when_used_as_spec(spec_continues)]
    pub fn continues(&self, options: &SAOptions) -> (r: bool)
        ensures
            r == self.spec_continues(options),
    {
        self.iterations < options.max_iterations_sa && options.min_temp.lt(self.temperature)
    }

    /// The probability with which a walk at a point with the value `current`
    /// moves on to one with the value `next` at the temperature
    /// `temperature`.
    pub fn acceptance_probability<C: Fn(Expression) -> Scalar>(
        next: Scalar,
        current: Scalar,
        temperature: Scalar,
        calculate: &C,
    ) -> (r: Scalar)
        requires
            calculates_all(calculate),
        ensures
            acceptance(calculate, next, current, temperature, r),
    {
        let rise = calculate(Expression::Difference(next, current));
        let exponent = calculate(Expression::Quotient(rise.neg(), temperature));
        let probability = calculate(Expression::Exponential(exponent));
        proof {
            assert(calculated(calculate, Expression::Difference(next, current), rise));
            assert(calculated(calculate, Expression::Quotient(rise.neg(), temperature), exponent));
        }
        probability
    }

    /// Performs one iteration: makes the neighborhood of the point the walk
    /// is at, chooses one of its states at random, evaluates it, and either
    /// records it as the best ever seen or decides whether to move on to it
    /// and cools down.
    pub fn advance<
        E: Fn(&Vec<Scalar>) -> Scalar,
        S: Fn(&[u8; 16], u128, Scalar, Scalar) -> Scalar,
        C: Fn(Expression) -> Scalar,
    >(&mut self, problem: &BBOBProblem, options: &SAOptions, evaluate: &E, sample: &S, calculate: &C)
        requires
            evaluates_all(evaluate),
            samples_all(sample),
            calculates_all(calculate),
            options.n_best_sa <= old(self).current.vector.len(),
            old(self).minimal.vector.len() == old(self).current.vector.len(),
            old(self).iterations < u64::MAX,
        ensures
            sa_iterated(evaluate, sample, calculate, *problem, *options, *old(self), *final(self)),
            final(self).current.vector.len() == old(self).current.vector.len(),
            final(self).minimal.vector.len() == old(self).current.vector.len(),
            final(self).minimal@ == old(self).minimal@ || final(self).minimal.objective_value.lt(
                old(self).minimal.objective_value,
            ),
            final(self).generator.seed() == old(self).generator.seed(),
            final(self).generator.interval() == old(self).generator.interval(),
            stays_within(*problem, *old(self), *final(self)),
    {
        let ghost before = *self;
        let mut neighborhood = SANeighborhood::new();
        neighborhood.generate_neighborhood(
            self.current.duplicate(),
            problem,
            *options,
            evaluate,
            calculate,
        );
        let ghost states = neighborhood.states@;
        let chosen = choose_random(&neighborhood.states, &mut self.chooser);
        self.iterations = self.iterations + 1;
        match chosen {
            Some(state) => {
                proof {
                    let index = crate::algorithms::common::rng::stream_index(
                        before.chooser.seed(),
                        before.chooser.draws(),
                        states.len(),
                    ) as int;
                    assert(neighborhood.states[index].vector.len() == before.current.vector.len());
                    assert(state.vector@ == chosen_of(before.chooser, states).vector@);
                }
                let mut next_state = state;
                let value = evaluate(&next_state.vector);
                next_state.set_objective_value(value);
                let ghost next = next_state@;
                if next_state.objective_value.lt(self.minimal.objective_value) {
                    self.minimal = next_state;
                } else {
                    let p_move = AnnealingProgress::acceptance_probability(
                        next_state.objective_value,
                        self.current.objective_value,
                        self.temperature,
                        calculate,
                    );
                    let unit = self.generator.sample_0_to_1(sample, calculate);
                    proof {
                        assert(unit_draw(sample, calculate, before.generator, unit));
                    }
                    if unit.le(p_move) {
                        self.current = next_state;
                    }
                    self.temperature = calculate(
                        Expression::Product(self.temperature, options.annealing_schedule),
                    );
                }
                proof {
                    assert(sa_looked(sample, calculate, *options, before, *self, next));
                    assert(sa_chose(
                        evaluate,
                        sample,
                        calculate,
                        *options,
                        before,
                        *self,
                        states,
                        value,
                    ));
                    assert(sa_iterated(evaluate, sample, calculate, *problem, *options, before, *self));
                }
            },
            None => {
                proof {
                    assert(sa_chose(
                        evaluate,
                        sample,
                        calculate,
                        *options,
                        before,
                        *self,
                        states,
                        Scalar::zero(),
                    ));
                    assert(sa_iterated(evaluate, sample, calculate, *problem, *options, before, *self));
                }
            },
        }
    }
}

/// Whether `walk` holds the states of the global phase through a whole run
/// under `options`: each state follows from the one before it by one
/// iteration, the walk goes on from every state but the last, and not from
/// the last.
pub open spec fn sa_trace<
    E: Fn(&Vec<Scalar>) -> Scalar,
    S: Fn(&[u8; 16], u128, Scalar, Scalar) -> Scalar,
    C: Fn(Expression) -> Scalar,
>(
    evaluate: &E,
    sample: &S,
    calculate: &C,
    problem: BBOBProblem,
    options: SAOptions,
    walk: Seq<AnnealingProgress>,
) -> bool {
    &&& walk.len() >= 1
    &&& forall|k: int|
        0 <= k < walk.len() - 1 ==> (#[trigger] walk[k]).continues(&options) && sa_iterated(
            evaluate,
            sample,
            calculate,
            problem,
            options,
            walk[k],
            walk[k + 1],
        )
    &&& !walk.last().continues(&options)
}

/// Whether the walk that starts as `start` fails: it is to perform an
/// iteration, and the options ask it to move along more dimensions than the
/// problem has.
pub open spec fn walk_fails(problem: BBOBProblem, options: SAOptions, start: AnnealingProgress) -> bool {
    options.n_best_sa > problem.input_dimensions && start.continues(&options)
}

/// Whether `result` is what the global phase under `options` may end with
/// when its walk starts as `start`: the error that there are too many
/// dimensions if the walk fails, and otherwise the best point ever seen of
/// the last state of the walk. That point lies within the bounds of the
/// problem if the start does.
pub open spec fn walked<
    E: Fn(&Vec<Scalar>) -> Scalar,
    S: Fn(&[u8; 16], u128, Scalar, Scalar) -> Scalar,
    C: Fn(Expression) -> Scalar,
>(
    evaluate: &E,
    sample: &S,
    calculate: &C,
    problem: BBOBProblem,
    options: SAOptions,
    start: AnnealingProgress,
    result: Result<Candidate, SAError>,
) -> bool {
    match result {
        Err(error) => error == SAError::TooManyDimensions && walk_fails(problem, options, start),
        Ok(minimal) => {
            &&& !walk_fails(problem, options, start)
            &&& minimal.position.len() == problem.input_dimensions
            &&& problem.bounds.contains_all(start.current.vector@) ==> problem.bounds.contains_all(
                minimal.position,
            )
            &&& exists|walk: Seq<AnnealingProgress>|
                {
                    &&& #[trigger] sa_trace(evaluate, sample, calculate, problem, options, walk)
                    &&& walk[0] == start
                    &&& walk.last().minimal@ == minimal
                }
        },
    }
}

/// Whether `result` is what the global phase under `options` may end with:
/// what a walk that starts as [`sa_started`] says ends with.
pub open spec fn annealed<
    E: Fn(&Vec<Scalar>) -> Scalar,
    S: Fn(&[u8; 16], u128, Scalar, Scalar) -> Scalar,
    C: Fn(Expression) -> Scalar,
>(
    evaluate: &E,
    sample: &S,
    calculate: &C,
    problem: BBOBProblem,
    options: SAOptions,
    result: Result<Candidate, SAError>,
) -> bool {
    exists|start: AnnealingProgress|
        {
            &&& #[trigger] sa_started(evaluate, sample, calculate, problem, options, start)
            &&& walked(evaluate, sample, calculate, problem, options, start, result)
        }
}

/// What the global phase hands back, as mathematics sees it.
pub open spec fn state_view(result: Result<State, SAError>) -> Result<Candidate, SAError> {
    match result {
        Ok(state) => Ok(state@),
        Err(error) => Err(error),
    }
}

/// Whether `result` is what a run of simulated annealing under `options` may
/// hand back: the error of the global phase, or what the local search makes
/// of the best point of the global phase.
pub open spec fn sa_ran<
    E: Fn(&Vec<Scalar>) -> Scalar,
    S: Fn(&[u8; 16], u128, Scalar, Scalar) -> Scalar,
    C: Fn(Expression) -> Scalar,
>(
    evaluate: &E,
    sample: &S,
    calculate: &C,
    problem: BBOBProblem,
    options: SAOptions,
    result: Result<Candidate, SAError>,
) -> bool {
    exists|from_walk: Result<Candidate, SAError>|
        {
            &&& #[trigger] annealed(evaluate, sample, calculate, problem, options, from_walk)
            &&& match from_walk {
                Err(error) => result == Err::<Candidate, SAError>(error),
                Ok(minimal) => search_outcome(
                    evaluate,
                    calculate,
                    problem,
                    options,
                    minimal,
                    result,
                ),
            }
        }
}

/// A walk that starts no warmer than the minimum temperature, or may not
/// perform any iteration, ends where it starts: the best point ever seen is
/// the random point that it started at.
pub proof fn lemma_cold_start<
    E: Fn(&Vec<Scalar>) -> Scalar,
    S: Fn(&[u8; 16], u128, Scalar, Scalar) -> Scalar,
    C: Fn(Expression) -> Scalar,
>(
    evaluate: &E,
    sample: &S,
    calculate: &C,
    problem: BBOBProblem,
    options: SAOptions,
    walk: Seq<AnnealingProgress>,
)
    requires
        sa_trace(evaluate, sample, calculate, problem, options, walk),
        !options.min_temp.lt(walk[0].temperature) || options.max_iterations_sa == 0,
    ensures
        walk.len() == 1,
        walk.last() == walk[0],
{
    if walk.len() > 1 {
        assert(walk[0].continues(&options));
    }
}

/// The global phase: a random walk from a random point that cools down.
/// Hands back the best point that the walk has ever seen.
///
/// A walk that may not perform any iteration hands its start back. One that
/// is to perform an iteration fails if the options ask to move along more
/// dimensions than the problem has.
pub fn global_search<
    E: Fn(&Vec<Scalar>) -> Scalar,
    S: Fn(&[u8; 16], u128, Scalar, Scalar) -> Scalar,
    C: Fn(Expression) -> Scalar,
>(problem: &BBOBProblem, options: SAOptions, evaluate: &E, sample: &S, calculate: &C) -> (r: Result<
    State,
    SAError,
>)
    requires
        evaluates_all(evaluate),
        samples_all(sample),
        calculates_all(calculate),
    ensures
        annealed(evaluate, sample, calculate, *problem, options, state_view(r)),
        options.n_best_sa <= problem.input_dimensions || options.max_iterations_sa == 0 ==> r is Ok,
        r is Ok ==> r.unwrap().vector.len() == problem.input_dimensions,
{
    let mut progress = AnnealingProgress::new(problem, &options, evaluate, sample, calculate);
    let ghost start = progress;
    if progress.continues(&options) && options.n_best_sa > problem.input_dimensions {
        let result = Err(SAError::TooManyDimensions);
        proof {
            assert(walked(evaluate, sample, calculate, *problem, options, start, state_view(result)));
        }
        return result;
    }
    let ghost mut walk: Seq<AnnealingProgress> = seq![progress];
    while progress.continues(&options)
        invariant
            evaluates_all(evaluate),
            samples_all(sample),
            calculates_all(calculate),
            progress.continues(&options) ==> options.n_best_sa <= problem.input_dimensions,
            !walk_fails(*problem, options, start),
            progress.current.vector.len() == problem.input_dimensions,
            progress.minimal.vector.len() == problem.input_dimensions,
            progress.iterations <= options.max_iterations_sa,
            walk.len() >= 1,
            walk.last() == progress,
            walk[0] == start,
            sa_started(evaluate, sample, calculate, *problem, options, start),
            problem.bounds.contains_all(start.current.vector@) ==> problem.bounds.contains_all(
                progress.current.vector@,
            ) && problem.bounds.contains_all(progress.minimal.vector@),
            forall|k: int|
                0 <= k < walk.len() - 1 ==> (#[trigger] walk[k]).continues(&options)
                    && sa_iterated(
                    evaluate,
                    sample,
                    calculate,
                    *problem,
                    options,
                    walk[k],
                    walk[k + 1],
                ),
        decreases options.max_iterations_sa - progress.iterations,
    {
        let ghost before = progress;
        progress.advance(problem, &options, evaluate, sample, calculate);
        proof {
            let ghost earlier = walk;
            walk = walk.push(progress);
            assert forall|k: int| 0 <= k < walk.len() - 1 implies (#[trigger] walk[k]).continues(
                &options,
            ) && sa_iterated(
                evaluate,
                sample,
                calculate,
                *problem,
                options,
                walk[k],
                walk[k + 1],
            ) by {
                if k < earlier.len() - 1 {
                    assert(walk[k] == earlier[k]);
                    assert(walk[k + 1] == earlier[k + 1]);
                } else {
                    assert(walk[k] == before);
                }
            }
        }
    }
    let result = Ok(progress.minimal);
    proof {
        assert(sa_trace(evaluate, sample, calculate, *problem, options, walk));
        assert(walked(evaluate, sample, calculate, *problem, options, start, state_view(result)));
    }
    result
}

/// Runs simulated annealing over a problem: the global phase from a random
/// point, then the local search from the best point that the global phase
/// has seen.
///
/// The run fails if a phase that is to perform an iteration is asked to move
/// along more dimensions than the problem has: with the error of the global
/// phase, or else with that of the local search.
pub fn run_sa<
    E: Fn(&Vec<Scalar>) -> Scalar,
    S: Fn(&[u8; 16], u128, Scalar, Scalar) -> Scalar,
    C: Fn(Expression) -> Scalar,
>(problem: &BBOBProblem, options: SAOptions, evaluate: &E, sample: &S, calculate: &C) -> (r: Result<
    Minimum,
    SAError,
>)
    requires
        evaluates_all(evaluate),
        samples_all(sample),
        calculates_all(calculate),
    ensures
        sa_ran(evaluate, sample, calculate, *problem, options, minimum_view(r)),
        (options.n_best_sa <= problem.input_dimensions || options.max_iterations_sa == 0)
            && !search_fails(options, problem.input_dimensions as nat) ==> r is Ok,
        search_fails(options, problem.input_dimensions as nat) ==> r is Err,
        r is Ok ==> r.unwrap().vector.len() == problem.input_dimensions,
{
    let walked = global_search(problem, options, evaluate, sample, calculate);
    let ghost from_walk = state_view(walked);
    let minimal_state = match walked {
        Ok(minimal_state) => minimal_state,
        Err(error) => {
            let result = Err(error);
            proof {
                assert(annealed(evaluate, sample, calculate, *problem, options, from_walk));
            }
            return result;
        },
    };
    let result = local_search(problem, &minimal_state, options, evaluate, calculate);
    proof {
        assert(annealed(evaluate, sample, calculate, *problem, options, from_walk));
    }
    result
}

/// The least of the first `upto` values of `values` and where it stands,
/// looking at them one after the other and starting from the largest finite
/// number at place 0: a value replaces the least exactly when it is strictly
/// smaller.
pub open spec fn least_value(values: Seq<Scalar>, upto: nat) -> (Scalar, usize)
    decreases upto,
{
    if upto == 0 {
        (Scalar::largest(), 0)
    } else {
        let before = least_value(values, (upto - 1) as nat);
        if values[upto - 1].lt(before.0) {
            (values[upto - 1], (upto - 1) as usize)
        } else {
            before
        }
    }
}

/// The least value is a number, and it is the largest finite number or what
/// stands at its place.
pub proof fn lemma_least_value_stands(values: Seq<Scalar>, upto: nat)
    requires
        upto <= values.len() <= usize::MAX,
    ensures
        !least_value(values, upto).0.is_nan(),
        least_value(values, upto).0 == Scalar::largest() || (least_value(values, upto).1 < upto
            && values[least_value(values, upto).1 as int] == least_value(values, upto).0),
    decreases upto,
{
    if upto > 0 {
        lemma_least_value_stands(values, (upto - 1) as nat);
    }
}

/// No value that was looked at is strictly smaller than the least.
pub proof fn lemma_least_value_is_least(values: Seq<Scalar>, upto: nat, k: int)
    requires
        upto <= values.len() <= usize::MAX,
        0 <= k < upto,
    ensures
        !values[k].lt(least_value(values, upto).0),
    decreases upto,
{
    let before = least_value(values, (upto - 1) as nat);
    if k < upto - 1 {
        lemma_least_value_is_least(values, (upto - 1) as nat, k);
        if values[upto - 1].lt(before.0) && values[k].lt(values[upto - 1]) {
            crate::scalar::lemma_lt_transitive(values[k], values[upto - 1], before.0);
        }
    }
}

/// The value of the best of several runs and the place of that run. Of runs
/// with the same value the first is the best; if no run has a value below
/// the largest finite number, that number at place 0 is handed back.
pub fn best_of_runs(values: &Vec<Scalar>) -> (r: (Scalar, usize))
    ensures
        r == least_value(values@, values.len() as nat),
{
    let mut min = Scalar::largest();
    let mut min_index: usize = 0;
    let mut i: usize = 0;
    while i < values.len()
        invariant
            i <= values.len(),
            (min, min_index) == least_value(values@, i as nat),
        decreases values.len() - i,
    {
        if values[i].lt(min) {
            min = values[i];
            min_index = i;
        }
        i += 1;
    }
    (min, min_index)
}

} // verus!
