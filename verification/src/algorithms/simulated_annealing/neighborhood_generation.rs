//! The neighborhoods of a point: which other points simulated annealing and
//! the local search look at next.
//!
//! A neighborhood is made in two steps. First the dimensions are ranked by
//! how much the objective falls when the point is nudged along them. Then,
//! along each of the best few dimensions, the point is moved by multiples of
//! a step, and what stays within the bounds of the problem is kept.

use vstd::prelude::*;
use crate::algorithms::common::arithmetic::{
    calculated,
    calculates_all,
    evaluated,
    evaluates_all,
    Expression,
};
use crate::algorithms::common::sorting::{descending, sort_descending, Ranked};
use crate::algorithms::common::structs::State;
use crate::algorithms::simulated_annealing::options::SAOptions;
use crate::bbob::problem::{BBOBProblem, Bounds};
use crate::scalar::Scalar;

verus! {

/// By how many multiples of the step simulated annealing moves a coordinate
/// at most: it moves it by one step, by two, and so on up to this many.
pub const SA_STEP_MULTIPLES: usize = 10;

/// By how many multiples of the step the local search moves a coordinate at
/// most: it moves it by one step, by two, and so on up to this many.
pub const LS_STEP_MULTIPLES: usize = 20;

/// The number 0.01, by which simulated annealing nudges a coordinate to see
/// how the objective responds.
pub open spec fn probe_delta() -> Scalar {
    Scalar { bits: 0x3F84_7AE1_47AE_147B }
}

/// The number 2.
pub open spec fn two() -> Scalar {
    Scalar { bits: 0x4000_0000_0000_0000 }
}

/// A dimension with how much the objective falls along it, and in which
/// direction.
#[derive(Copy, Clone, Debug, PartialEq, Eq, Structural)]
pub struct VectorElement {
    /// Which dimension it is.
    pub index: usize,
    /// By how much the objective falls when the point is nudged along the
    /// dimension.
    pub value_diff: Scalar,
    /// Whether the point is to move up along the dimension, rather than
    /// down.
    pub upward: bool,
}

impl VectorElement {
    /// The dimension `index` with the fall `value_diff`; the point is to
    /// move up along it if the fall is above zero.
    pub fn new(index: usize, value_diff: Scalar) -> (r: Self)
        ensures
            r == (VectorElement { index, value_diff, upward: Scalar::zero().lt(value_diff) }),
    {
        Self { index, value_diff, upward: Scalar::zero().lt(value_diff) }
    }
}

impl Ranked for VectorElement {
    open spec fn key(&self) -> Scalar {
        self.value_diff
    }

    /// Of two dimensions with the same fall, the one with the smaller index
    /// goes first.
    open spec fn tie(&self) -> nat {
        self.index as nat
    }

    fn sort_key(&self) -> (r: Scalar) {
        self.value_diff
    }

    fn sort_tie(&self) -> (r: usize) {
        self.index
    }
}

/// Whether `element` is what nudging a point at `current` up by the probe
/// delta along one dimension may give, when the objective is `base` at the
/// point: the fall is `base` minus the value at the nudged point, and the
/// point is to move up if the fall is above zero.
pub open spec fn probed_up<E: Fn(&Vec<Scalar>) -> Scalar, C: Fn(Expression) -> Scalar>(
    evaluate: &E,
    calculate: &C,
    current: Seq<Scalar>,
    base: Scalar,
    element: VectorElement,
) -> bool {
    &&& element.index < current.len()
    &&& element.upward == Scalar::zero().lt(element.value_diff)
    &&& exists|nudged: Scalar, value: Scalar|
        {
            &&& #[trigger] calculated(
                calculate,
                Expression::Sum(current[element.index as int], probe_delta()),
                nudged,
            )
            &&& #[trigger] evaluated(evaluate, current.update(element.index as int, nudged), value)
            &&& calculated(calculate, Expression::Difference(base, value), element.value_diff)
        }
}

/// Whether `element` is what nudging a point at `current` up and down by
/// `step` along one dimension may give, when the objective is `base` at the
/// point: the point is to move up if the objective falls more that way than
/// the other, and the fall is that of the way it is to move.
pub open spec fn probed_both<E: Fn(&Vec<Scalar>) -> Scalar, C: Fn(Expression) -> Scalar>(
    evaluate: &E,
    calculate: &C,
    current: Seq<Scalar>,
    base: Scalar,
    step: Scalar,
    element: VectorElement,
) -> bool {
    &&& element.index < current.len()
    &&& exists|
        above: Scalar,
        value_above: Scalar,
        fall_above: Scalar,
        twice: Scalar,
        below: Scalar,
        value_below: Scalar,
        fall_below: Scalar,
    |
        {
            &&& #[trigger] calculated(
                calculate,
                Expression::Sum(current[element.index as int], step),
                above,
            )
            &&& #[trigger] evaluated(
                evaluate,
                current.update(element.index as int, above),
                value_above,
            )
            &&& #[trigger] calculated(calculate, Expression::Difference(base, value_above), fall_above)
            &&& #[trigger] calculated(calculate, Expression::Product(two(), step), twice)
            &&& #[trigger] calculated(calculate, Expression::Difference(above, twice), below)
            &&& #[trigger] evaluated(
                evaluate,
                current.update(element.index as int, below),
                value_below,
            )
            &&& #[trigger] calculated(calculate, Expression::Difference(base, value_below), fall_below)
            &&& element.upward == fall_below.lt(fall_above)
            &&& element.value_diff == if element.upward {
                fall_above
            } else {
                fall_below
            }
        }
}

/// Whether dimension `dimension` stands in `ranking`.
pub open spec fn holds_dimension(ranking: Seq<VectorElement>, dimension: int) -> bool {
    exists|i: int| 0 <= i < ranking.len() && (#[trigger] ranking[i]).index == dimension
}

/// Whether `ranking` ranks the dimensions of a point with `dimensions`
/// coordinates: every dimension stands in it once, and they stand from the
/// largest fall to the smallest, those with the same fall from the smallest
/// index to the largest.
pub open spec fn is_ranking(ranking: Seq<VectorElement>, dimensions: nat) -> bool {
    &&& ranking.len() == dimensions
    &&& descending(ranking)
    &&& forall|i: int| 0 <= i < ranking.len() ==> (#[trigger] ranking[i]).index < dimensions
    &&& forall|k: int| 0 <= k < dimensions ==> #[trigger] holds_dimension(ranking, k)
}

/// Whether `moved` is what `calculate` may give for `coordinate` moved by
/// `multiple` steps: `coordinate` plus, or minus, `step` times `multiple`.
pub open spec fn stepped<C: Fn(Expression) -> Scalar>(
    calculate: &C,
    coordinate: Scalar,
    step: Scalar,
    multiple: usize,
    upward: bool,
    moved: Scalar,
) -> bool {
    exists|count: Scalar, stride: Scalar|
        {
            &&& #[trigger] calculated(calculate, Expression::Count(multiple), count)
            &&& #[trigger] calculated(calculate, Expression::Product(step, count), stride)
            &&& calculated(
                calculate,
                if upward {
                    Expression::Sum(coordinate, stride)
                } else {
                    Expression::Difference(coordinate, stride)
                },
                moved,
            )
        }
}

/// The candidates along one dimension: for each of the first `upto` entries
/// of `moves` that lies within `bounds`, in their order, the point `current`
/// with coordinate `index` replaced by it.
pub open spec fn row_candidates(
    current: Seq<Scalar>,
    index: int,
    moves: Seq<Scalar>,
    bounds: Bounds,
    upto: nat,
) -> Seq<Seq<Scalar>>
    decreases upto,
{
    if upto == 0 {
        Seq::empty()
    } else {
        let before = row_candidates(current, index, moves, bounds, (upto - 1) as nat);
        if bounds.contains(moves[upto - 1]) {
            before.push(current.update(index, moves[upto - 1]))
        } else {
            before
        }
    }
}

/// The candidates along the first `rows` dimensions of `ranking`, in their
/// order: those of each dimension are the first `multiples` entries of its
/// row of `moves` that lie within `bounds`.
pub open spec fn all_candidates(
    current: Seq<Scalar>,
    ranking: Seq<VectorElement>,
    moves: Seq<Seq<Scalar>>,
    bounds: Bounds,
    multiples: nat,
    rows: nat,
) -> Seq<Seq<Scalar>>
    decreases rows,
{
    if rows == 0 {
        Seq::empty()
    } else {
        all_candidates(current, ranking, moves, bounds, multiples, (rows - 1) as nat)
            + row_candidates(
            current,
            ranking[rows - 1].index as int,
            moves[rows - 1],
            bounds,
            multiples,
        )
    }
}

/// The candidates along a dimension depend only on the moves that are looked
/// at.
pub proof fn lemma_row_candidates_prefix(
    current: Seq<Scalar>,
    index: int,
    first: Seq<Scalar>,
    second: Seq<Scalar>,
    bounds: Bounds,
    upto: nat,
)
    requires
        upto <= first.len(),
        upto <= second.len(),
        forall|k: int| 0 <= k < upto ==> first[k] == second[k],
    ensures
        row_candidates(current, index, first, bounds, upto) == row_candidates(
            current,
            index,
            second,
            bounds,
            upto,
        ),
    decreases upto,
{
    if upto > 0 {
        lemma_row_candidates_prefix(current, index, first, second, bounds, (upto - 1) as nat);
    }
}

/// The candidates along the first dimensions depend only on the rows of
/// moves that are looked at.
pub proof fn lemma_all_candidates_prefix(
    current: Seq<Scalar>,
    ranking: Seq<VectorElement>,
    first: Seq<Seq<Scalar>>,
    second: Seq<Seq<Scalar>>,
    bounds: Bounds,
    multiples: nat,
    rows: nat,
)
    requires
        rows <= first.len(),
        rows <= second.len(),
        forall|k: int| 0 <= k < rows ==> first[k] == second[k],
    ensures
        all_candidates(current, ranking, first, bounds, multiples, rows) == all_candidates(
            current,
            ranking,
            second,
            bounds,
            multiples,
            rows,
        ),
    decreases rows,
{
    if rows > 0 {
        lemma_all_candidates_prefix(
            current,
            ranking,
            first,
            second,
            bounds,
            multiples,
            (rows - 1) as nat,
        );
    }
}

/// Along one dimension there is at most one candidate for each move, and
/// each candidate differs from the point in that dimension alone and lies
/// within the bounds there.
pub proof fn lemma_row_candidates_bounded(
    current: Seq<Scalar>,
    index: int,
    moves: Seq<Scalar>,
    bounds: Bounds,
    upto: nat,
)
    requires
        0 <= index < current.len(),
        upto <= moves.len(),
    ensures
        row_candidates(current, index, moves, bounds, upto).len() <= upto,
        (forall|k: int| 0 <= k < upto ==> bounds.contains(#[trigger] moves[k])) ==> row_candidates(
            current,
            index,
            moves,
            bounds,
            upto,
        ).len() == upto,
        forall|i: int|
            0 <= i < row_candidates(current, index, moves, bounds, upto).len() ==> {
                let candidate = #[trigger] row_candidates(current, index, moves, bounds, upto)[i];
                &&& candidate.len() == current.len()
                &&& bounds.contains(candidate[index])
                &&& forall|k: int| 0 <= k < current.len() && k != index ==> candidate[k] == current[k]
            },
    decreases upto,
{
    if upto > 0 {
        lemma_row_candidates_bounded(current, index, moves, bounds, (upto - 1) as nat);
    }
}

/// How many of the first `upto` entries of `moves` lie beyond `bounds`.
pub open spec fn excluded(moves: Seq<Scalar>, bounds: Bounds, upto: nat) -> nat
    decreases upto,
{
    if upto == 0 {
        0
    } else {
        excluded(moves, bounds, (upto - 1) as nat) + if bounds.contains(moves[upto - 1]) {
            0nat
        } else {
            1nat
        }
    }
}

/// Along one dimension there are exactly as many candidates as there are
/// moves, less those that lie beyond the bounds; so there is none only if
/// every move lies beyond the bounds.
pub proof fn lemma_row_candidates_count(
    current: Seq<Scalar>,
    index: int,
    moves: Seq<Scalar>,
    bounds: Bounds,
    upto: nat,
)
    ensures
        row_candidates(current, index, moves, bounds, upto).len() + excluded(moves, bounds, upto)
            == upto,
        row_candidates(current, index, moves, bounds, upto).len() == 0 ==> forall|k: int|
            0 <= k < upto ==> !bounds.contains(#[trigger] moves[k]),
    decreases upto,
{
    if upto > 0 {
        lemma_row_candidates_count(current, index, moves, bounds, (upto - 1) as nat);
    }
}

/// The positions of `states`, in their order.
pub open spec fn positions(states: Seq<State>) -> Seq<Seq<Scalar>> {
    states.map_values(|state: State| state.vector@)
}

/// Whether `states` is a neighborhood of the point `current` that was made
/// from `ranking` and `moves`: along each of the first `breadth` dimensions
/// of the ranking, a row of `moves` holds the coordinate moved by one step,
/// two steps and so on, in the direction of the dimension, and the
/// neighborhood holds, in this order, the point with each such coordinate
/// that lies within `bounds`.
pub open spec fn is_neighborhood<C: Fn(Expression) -> Scalar>(
    calculate: &C,
    current: Seq<Scalar>,
    ranking: Seq<VectorElement>,
    moves: Seq<Seq<Scalar>>,
    bounds: Bounds,
    step: Scalar,
    multiples: nat,
    breadth: nat,
    states: Seq<State>,
) -> bool {
    &&& breadth <= ranking.len()
    &&& moves.len() == breadth
    &&& forall|row: int| 0 <= row < breadth ==> (#[trigger] moves[row]).len() == multiples
    &&& forall|row: int, multiple: int|
        0 <= row < breadth && 0 <= multiple < multiples ==> stepped(
            calculate,
            current[ranking[row].index as int],
            step,
            (multiple + 1) as usize,
            ranking[row].upward,
            #[trigger] moves[row][multiple],
        )
    &&& positions(states) == all_candidates(current, ranking, moves, bounds, multiples, breadth)
}

/// The point `current` with coordinate `index` replaced by `value`.
pub fn with_coordinate(current: &Vec<Scalar>, index: usize, value: Scalar) -> (r: Vec<Scalar>)
    requires
        index < current.len(),
    ensures
        r@ == current@.update(index as int, value),
{
    let mut changed: Vec<Scalar> = Vec::with_capacity(current.len());
    let mut k: usize = 0;
    while k < current.len()
        invariant
            k <= current.len(),
            index < current.len(),
            changed.len() == k,
            forall|j: int|
                0 <= j < k ==> #[trigger] changed[j] == current@.update(index as int, value)[j],
        decreases current.len() - k,
    {
        if k == index {
            changed.push(value);
        } else {
            changed.push(current[k]);
        }
        k += 1;
    }
    proof {
        assert(changed@ =~= current@.update(index as int, value));
    }
    changed
}

/// Sorts the elements from the largest fall to the smallest, those with the
/// same fall from the smallest index to the largest. Where element `k` is
/// that of dimension `k`, for every `k`, the outcome ranks the dimensions.
pub fn rank_dimensions(elements: Vec<VectorElement>) -> (r: Vec<VectorElement>)
    ensures
        descending(r@),
        r@.to_multiset() == elements@.to_multiset(),
        r.len() == elements.len(),
        forall|i: int| 0 <= i < r.len() ==> elements@.contains(#[trigger] r[i]),
        (forall|k: int| 0 <= k < elements.len() ==> (#[trigger] elements[k]).index == k)
            ==> is_ranking(r@, elements.len() as nat),
{
    let ghost probes = elements@;
    let ranking = sort_descending(elements);
    proof {
        if forall|k: int| 0 <= k < probes.len() ==> (#[trigger] probes[k]).index == k {
            assert forall|i: int| 0 <= i < ranking.len() implies (#[trigger] ranking[i]).index
                < probes.len() by {
                assert(probes.contains(ranking[i]));
            }
            assert forall|k: int| 0 <= k < probes.len() implies #[trigger] holds_dimension(
                ranking@,
                k,
            ) by {
                assert(ranking@.contains(probes[k]));
                let i = choose|i: int| 0 <= i < ranking@.len() && ranking@[i] == probes[k];
                assert(ranking@[i].index == k);
            }
        }
    }
    ranking
}

/// The neighborhood of `current` along the first `breadth` dimensions of
/// `ranking`: the point moved by 1 to `multiples` steps along each of
/// them, where that stays within `bounds`.
pub fn synthesize<C: Fn(Expression) -> Scalar>(
    current: &Vec<Scalar>,
    ranking: &Vec<VectorElement>,
    bounds: Bounds,
    step: Scalar,
    multiples: usize,
    breadth: usize,
    calculate: &C,
) -> (r: Vec<State>)
    requires
        calculates_all(calculate),
        breadth <= ranking.len(),
        forall|i: int| 0 <= i < ranking.len() ==> (#[trigger] ranking[i]).index < current.len(),
    ensures
        exists|moves: Seq<Seq<Scalar>>| #[trigger]
            is_neighborhood(
                calculate,
                current@,
                ranking@,
                moves,
                bounds,
                step,
                multiples as nat,
                breadth as nat,
                r@,
            ),
        r.len() <= breadth * multiples,
        forall|i: int| 0 <= i < r.len() ==> (#[trigger] r[i]).vector.len() == current.len(),
        bounds.contains_all(current@) ==> forall|i: int|
            0 <= i < r.len() ==> bounds.contains_all((#[trigger] r[i]).vector@),
{
    let mut states: Vec<State> = Vec::new();
    let ghost mut moves: Seq<Seq<Scalar>> = Seq::empty();
    let mut row: usize = 0;
    while row < breadth
        invariant
            row <= breadth,
            breadth <= ranking.len(),
            calculates_all(calculate),
            forall|i: int| 0 <= i < ranking.len() ==> (#[trigger] ranking[i]).index < current.len(),
            moves.len() == row,
            forall|done: int| 0 <= done < row ==> (#[trigger] moves[done]).len() == multiples,
            forall|done: int, multiple: int|
                0 <= done < row && 0 <= multiple < multiples ==> stepped(
                    calculate,
                    current[ranking[done].index as int],
                    step,
                    (multiple + 1) as usize,
                    ranking[done].upward,
                    #[trigger] moves[done][multiple],
                ),
            positions(states@) == all_candidates(
                current@,
                ranking@,
                moves,
                bounds,
                multiples as nat,
                row as nat,
            ),
            states.len() <= row * multiples,
            forall|i: int|
                0 <= i < states.len() ==> (#[trigger] states[i]).vector.len() == current.len(),
            bounds.contains_all(current@) ==> forall|i: int|
                0 <= i < states.len() ==> bounds.contains_all((#[trigger] states[i]).vector@),
        decreases breadth - row,
    {
        let element = ranking[row];
        let ghost before_row = positions(states@);
        let ghost mut line: Seq<Scalar> = Seq::empty();
        let mut multiple: usize = 0;
        while multiple < multiples
            invariant
                multiple <= multiples,
                row < breadth,
                breadth <= ranking.len(),
                element == ranking[row as int],
                element.index < current.len(),
                calculates_all(calculate),
                line.len() == multiple,
                forall|j: int|
                    0 <= j < multiple ==> stepped(
                        calculate,
                        current[element.index as int],
                        step,
                        (j + 1) as usize,
                        element.upward,
                        #[trigger] line[j],
                    ),
                positions(states@) == before_row + row_candidates(
                    current@,
                    element.index as int,
                    line,
                    bounds,
                    multiple as nat,
                ),
                before_row.len() <= row * multiples,
                states.len() <= before_row.len() + multiple,
                forall|i: int|
                    0 <= i < states.len() ==> (#[trigger] states[i]).vector.len() == current.len(),
                bounds.contains_all(current@) ==> forall|i: int|
                    0 <= i < states.len() ==> bounds.contains_all((#[trigger] states[i]).vector@),
            decreases multiples - multiple,
        {
            let count = calculate(Expression::Count(multiple + 1));
            let stride = calculate(Expression::Product(step, count));
            let coordinate = current[element.index];
            let moved = if element.upward {
                calculate(Expression::Sum(coordinate, stride))
            } else {
                calculate(Expression::Difference(coordinate, stride))
            };
            let ghost line_before = line;
            let ghost known = positions(states@);
            proof {
                assert(calculated(calculate, Expression::Count((multiple + 1) as usize), count));
                assert(calculated(calculate, Expression::Product(step, count), stride));
                assert(stepped(
                    calculate,
                    coordinate,
                    step,
                    (multiple + 1) as usize,
                    element.upward,
                    moved,
                ));
                line = line.push(moved);
                lemma_row_candidates_prefix(
                    current@,
                    element.index as int,
                    line_before,
                    line,
                    bounds,
                    multiple as nat,
                );
            }
            if bounds.contains(moved) {
                let position = with_coordinate(current, element.index, moved);
                let state = State::new_without_value(position);
                states.push(state);
                proof {
                    assert(positions(states@) =~= known.push(state.vector@));
                    assert(known.push(state.vector@) =~= before_row + row_candidates(
                        current@,
                        element.index as int,
                        line,
                        bounds,
                        (multiple + 1) as nat,
                    ));
                    if bounds.contains_all(current@) {
                        assert forall|k: int| 0 <= k < position.len() implies bounds.contains(
                            #[trigger] position[k],
                        ) by {
                            if k != element.index {
                                assert(position[k] == current[k]);
                            }
                        }
                    }
                }
            }
            multiple += 1;
        }
        proof {
            let ghost moves_before = moves;
            moves = moves.push(line);
            lemma_all_candidates_prefix(
                current@,
                ranking@,
                moves_before,
                moves,
                bounds,
                multiples as nat,
                row as nat,
            );
            assert forall|done: int| 0 <= done < row + 1 implies (#[trigger] moves[done]).len()
                == multiples by {
                if done < row {
                    assert(moves[done] == moves_before[done]);
                }
            }
            assert forall|done: int, multiple: int|
                0 <= done < row + 1 && 0 <= multiple < multiples implies stepped(
                calculate,
                current[ranking[done].index as int],
                step,
                (multiple + 1) as usize,
                ranking[done].upward,
                #[trigger] moves[done][multiple],
            ) by {
                if done < row {
                    assert(moves[done] == moves_before[done]);
                    assert(stepped(
                        calculate,
                        current[ranking[done].index as int],
                        step,
                        (multiple + 1) as usize,
                        ranking[done].upward,
                        moves_before[done][multiple],
                    ));
                } else {
                    assert(moves[done] == line);
                    assert(stepped(
                        calculate,
                        current[element.index as int],
                        step,
                        (multiple + 1) as usize,
                        element.upward,
                        line[multiple],
                    ));
                }
            }
            assert(states.len() <= (row + 1) * multiples) by (nonlinear_arith)
                requires
                    states.len() <= before_row.len() + multiples,
                    before_row.len() <= row * multiples,
            ;
        }
        row += 1;
    }
    proof {
        assert(is_neighborhood(
            calculate,
            current@,
            ranking@,
            moves,
            bounds,
            step,
            multiples as nat,
            breadth as nat,
            states@,
        ));
    }
    states
}

/// Whether `ranking` is what probing every dimension of the point
/// `current` upwards may give, when the objective is `base` at the point.
pub open spec fn is_upward_ranking<E: Fn(&Vec<Scalar>) -> Scalar, C: Fn(Expression) -> Scalar>(
    evaluate: &E,
    calculate: &C,
    current: Seq<Scalar>,
    base: Scalar,
    ranking: Seq<VectorElement>,
) -> bool {
    &&& evaluated(evaluate, current, base)
    &&& is_ranking(ranking, current.len())
    &&& forall|i: int|
        0 <= i < ranking.len() ==> probed_up(evaluate, calculate, current, base, #[trigger] ranking[i])
}

/// Whether `ranking` is what probing every dimension of the point
/// `current` both ways by `step` may give, when the objective is `base` at
/// the point.
pub open spec fn is_two_way_ranking<E: Fn(&Vec<Scalar>) -> Scalar, C: Fn(Expression) -> Scalar>(
    evaluate: &E,
    calculate: &C,
    current: Seq<Scalar>,
    base: Scalar,
    step: Scalar,
    ranking: Seq<VectorElement>,
) -> bool {
    &&& evaluated(evaluate, current, base)
    &&& is_ranking(ranking, current.len())
    &&& forall|i: int|
        0 <= i < ranking.len() ==> probed_both(
            evaluate,
            calculate,
            current,
            base,
            step,
            #[trigger] ranking[i],
        )
}

/// Whether `states` is what the neighborhood of simulated annealing around
/// the point `current` may be: the point moved by one to ten steps of the
/// annealing step size along each of the `n_best_sa` dimensions that an
/// upward probe ranks first, where that stays within `bounds`.
pub open spec fn is_sa_neighborhood<E: Fn(&Vec<Scalar>) -> Scalar, C: Fn(Expression) -> Scalar>(
    evaluate: &E,
    calculate: &C,
    current: Seq<Scalar>,
    bounds: Bounds,
    options: SAOptions,
    states: Seq<State>,
) -> bool {
    exists|base: Scalar, ranking: Seq<VectorElement>, moves: Seq<Seq<Scalar>>|
        {
            &&& #[trigger] is_upward_ranking(evaluate, calculate, current, base, ranking)
            &&& #[trigger] is_neighborhood(
                calculate,
                current,
                ranking,
                moves,
                bounds,
                options.initial_step_size_sa,
                SA_STEP_MULTIPLES as nat,
                options.n_best_sa as nat,
                states,
            )
        }
}

/// Whether `states` is what the neighborhood of the local search around the
/// point `current` may be: the point moved by one to twenty steps of the
/// local step size along each of the `n_best_ls` dimensions that a probe both
/// ways ranks first, where that stays within `bounds`.
pub open spec fn is_ls_neighborhood<E: Fn(&Vec<Scalar>) -> Scalar, C: Fn(Expression) -> Scalar>(
    evaluate: &E,
    calculate: &C,
    current: Seq<Scalar>,
    bounds: Bounds,
    options: SAOptions,
    states: Seq<State>,
) -> bool {
    exists|base: Scalar, ranking: Seq<VectorElement>, moves: Seq<Seq<Scalar>>|
        {
            &&& #[trigger] is_two_way_ranking(
                evaluate,
                calculate,
                current,
                base,
                options.initial_step_size_ls,
                ranking,
            )
            &&& #[trigger] is_neighborhood(
                calculate,
                current,
                ranking,
                moves,
                bounds,
                options.initial_step_size_ls,
                LS_STEP_MULTIPLES as nat,
                options.n_best_ls as nat,
                states,
            )
        }
}

/// The neighborhood that the global phase of simulated annealing looks at.
pub struct SANeighborhood {
    pub states: Vec<State>,
}

/// The neighborhood that the local search looks at.
pub struct LocalSearchNeighborhood {
    pub states: Vec<State>,
}

impl SANeighborhood {
    /// The empty neighborhood.
    pub fn new() -> (r: Self)
        ensures
            r.states@ == Seq::<State>::empty(),
    {
        Self { states: Vec::new() }
    }

    /// Replaces the neighborhood by that of `current_state`: the point moved
    /// by one to ten steps along each of the most promising dimensions,
    /// where that stays within the bounds of the problem. Every state of a
    /// neighborhood of a point within the bounds lies within the bounds.
    pub fn generate_neighborhood<E: Fn(&Vec<Scalar>) -> Scalar, C: Fn(Expression) -> Scalar>(
        &mut self,
        current_state: State,
        problem: &BBOBProblem,
        options: SAOptions,
        evaluate: &E,
        calculate: &C,
    )
        requires
            evaluates_all(evaluate),
            calculates_all(calculate),
            options.n_best_sa <= current_state.vector.len(),
        ensures
            is_sa_neighborhood(
                evaluate,
                calculate,
                current_state.vector@,
                problem.bounds,
                options,
                final(self).states@,
            ),
            final(self).states.len() <= options.n_best_sa * SA_STEP_MULTIPLES,
            forall|i: int|
                0 <= i < final(self).states.len() ==> (#[trigger] final(self).states[i]).vector.len()
                    == current_state.vector.len(),
            problem.bounds.contains_all(current_state.vector@) ==> forall|i: int|
                0 <= i < final(self).states.len() ==> problem.bounds.contains_all(
                    (#[trigger] final(self).states[i]).vector@,
                ),
    {
        let changes = self.find_biggest_change(&current_state.vector, evaluate, calculate);
        self.states = synthesize(
            &current_state.vector,
            &changes,
            problem.bounds,
            options.initial_step_size_sa,
            SA_STEP_MULTIPLES,
            options.n_best_sa,
            calculate,
        );
    }

    /// Ranks the dimensions of the point `current_neighborhood` by how much
    /// the objective falls when the point is nudged up by 0.01 along them.
    pub fn find_biggest_change<E: Fn(&Vec<Scalar>) -> Scalar, C: Fn(Expression) -> Scalar>(
        &self,
        current_neighborhood: &Vec<Scalar>,
        evaluate: &E,
        calculate: &C,
    ) -> (r: Vec<VectorElement>)
        requires
            evaluates_all(evaluate),
            calculates_all(calculate),
        ensures
            exists|base: Scalar| #[trigger]
                is_upward_ranking(evaluate, calculate, current_neighborhood@, base, r@),
            r.len() == current_neighborhood.len(),
            forall|i: int| 0 <= i < r.len() ==> (#[trigger] r[i]).index < current_neighborhood.len(),
    {
        let base_value = evaluate(current_neighborhood);
        let mut vec_elements: Vec<VectorElement> = Vec::with_capacity(current_neighborhood.len());
        let mut i: usize = 0;
        while i < current_neighborhood.len()
            invariant
                i <= current_neighborhood.len(),
                vec_elements.len() == i,
                evaluates_all(evaluate),
                calculates_all(calculate),
                forall|k: int| 0 <= k < i ==> (#[trigger] vec_elements[k]).index == k,
                forall|k: int|
                    0 <= k < i ==> probed_up(
                        evaluate,
                        calculate,
                        current_neighborhood@,
                        base_value,
                        #[trigger] vec_elements[k],
                    ),
            decreases current_neighborhood.len() - i,
        {
            let nudged = calculate(
                Expression::Sum(current_neighborhood[i], Scalar { bits: 0x3F84_7AE1_47AE_147B }),
            );
            let new_vec = with_coordinate(current_neighborhood, i, nudged);
            let value = evaluate(&new_vec);
            let fall = calculate(Expression::Difference(base_value, value));
            let element = VectorElement::new(i, fall);
            proof {
                assert(calculated(
                    calculate,
                    Expression::Sum(current_neighborhood@[i as int], probe_delta()),
                    nudged,
                ));
                assert(evaluated(evaluate, current_neighborhood@.update(i as int, nudged), value));
                assert(probed_up(evaluate, calculate, current_neighborhood@, base_value, element));
            }
            vec_elements.push(element);
            i += 1;
        }
        let ghost probes = vec_elements@;
        let ranking = rank_dimensions(vec_elements);
        proof {
            assert forall|k: int| 0 <= k < ranking.len() implies probed_up(
                evaluate,
                calculate,
                current_neighborhood@,
                base_value,
                #[trigger] ranking[k],
            ) by {
                assert(probes.contains(ranking[k]));
            }
            assert(is_upward_ranking(
                evaluate,
                calculate,
                current_neighborhood@,
                base_value,
                ranking@,
            ));
        }
        ranking
    }
}

impl LocalSearchNeighborhood {
    /// The empty neighborhood.
    pub fn new() -> (r: Self)
        ensures
            r.states@ == Seq::<State>::empty(),
    {
        Self { states: Vec::new() }
    }

    /// Replaces the neighborhood by that of `current_state`: the point moved
    /// by one to twenty steps along each of the most promising
    /// dimensions, where that stays within the bounds of the problem. Every
    /// state of a neighborhood of a point within the bounds lies within the
    /// bounds.
    pub fn generate_neighborhood<E: Fn(&Vec<Scalar>) -> Scalar, C: Fn(Expression) -> Scalar>(
        &mut self,
        current_state: State,
        problem: &BBOBProblem,
        options: SAOptions,
        evaluate: &E,
        calculate: &C,
    )
        requires
            evaluates_all(evaluate),
            calculates_all(calculate),
            options.n_best_ls <= current_state.vector.len(),
        ensures
            is_ls_neighborhood(
                evaluate,
                calculate,
                current_state.vector@,
                problem.bounds,
                options,
                final(self).states@,
            ),
            final(self).states.len() <= options.n_best_ls * LS_STEP_MULTIPLES,
            forall|i: int|
                0 <= i < final(self).states.len() ==> (#[trigger] final(self).states[i]).vector.len()
                    == current_state.vector.len(),
            problem.bounds.contains_all(current_state.vector@) ==> forall|i: int|
                0 <= i < final(self).states.len() ==> problem.bounds.contains_all(
                    (#[trigger] final(self).states[i]).vector@,
                ),
    {
        let changes = self.find_biggest_change(
            &current_state.vector,
            options.initial_step_size_ls,
            evaluate,
            calculate,
        );
        self.states = synthesize(
            &current_state.vector,
            &changes,
            problem.bounds,
            options.initial_step_size_ls,
            LS_STEP_MULTIPLES,
            options.n_best_ls,
            calculate,
        );
    }

    /// Ranks the dimensions of the point `current_neighborhood` by how much
    /// the objective falls when the point is nudged by `step_size` along
    /// them, in whichever direction it falls more.
    pub fn find_biggest_change<E: Fn(&Vec<Scalar>) -> Scalar, C: Fn(Expression) -> Scalar>(
        &self,
        current_neighborhood: &Vec<Scalar>,
        step_size: Scalar,
        evaluate: &E,
        calculate: &C,
    ) -> (r: Vec<VectorElement>)
        requires
            evaluates_all(evaluate),
            calculates_all(calculate),
        ensures
            exists|base: Scalar| #[trigger]
                is_two_way_ranking(
                    evaluate,
                    calculate,
                    current_neighborhood@,
                    base,
                    step_size,
                    r@,
                ),
            r.len() == current_neighborhood.len(),
            forall|i: int| 0 <= i < r.len() ==> (#[trigger] r[i]).index < current_neighborhood.len(),
    {
        let base_value = evaluate(current_neighborhood);
        let mut vec_elements: Vec<VectorElement> = Vec::with_capacity(current_neighborhood.len());
        let mut i: usize = 0;
        while i < current_neighborhood.len()
            invariant
                i <= current_neighborhood.len(),
                vec_elements.len() == i,
                evaluates_all(evaluate),
                calculates_all(calculate),
                forall|k: int| 0 <= k < i ==> (#[trigger] vec_elements[k]).index == k,
                forall|k: int|
                    0 <= k < i ==> probed_both(
                        evaluate,
                        calculate,
                        current_neighborhood@,
                        base_value,
                        step_size,
                        #[trigger] vec_elements[k],
                    ),
            decreases current_neighborhood.len() - i,
        {
            let above = calculate(Expression::Sum(current_neighborhood[i], step_size));
            let vec_above = with_coordinate(current_neighborhood, i, above);
            let value = evaluate(&vec_above);
            let fall_above = calculate(Expression::Difference(base_value, value));

            let twice = calculate(
                Expression::Product(Scalar { bits: 0x4000_0000_0000_0000 }, step_size),
            );
            let below = calculate(Expression::Difference(above, twice));
            let vec_below = with_coordinate(current_neighborhood, i, below);
            let value2 = evaluate(&vec_below);
            let fall_below = calculate(Expression::Difference(base_value, value2));

            let upward = fall_below.lt(fall_above);
            let value_diff = if upward {
                fall_above
            } else {
                fall_below
            };
            let element = VectorElement { index: i, value_diff, upward };
            proof {
                assert(calculated(
                    calculate,
                    Expression::Sum(current_neighborhood@[i as int], step_size),
                    above,
                ));
                assert(evaluated(evaluate, current_neighborhood@.update(i as int, above), value));
                assert(calculated(calculate, Expression::Difference(base_value, value), fall_above));
                assert(calculated(calculate, Expression::Product(two(), step_size), twice));
                assert(calculated(calculate, Expression::Difference(above, twice), below));
                assert(evaluated(evaluate, current_neighborhood@.update(i as int, below), value2));
                assert(calculated(calculate, Expression::Difference(base_value, value2), fall_below));
                assert(probed_both(
                    evaluate,
                    calculate,
                    current_neighborhood@,
                    base_value,
                    step_size,
                    element,
                ));
            }
            vec_elements.push(element);
            i += 1;
        }
        let ghost probes = vec_elements@;
        let ranking = rank_dimensions(vec_elements);
        proof {
            assert forall|k: int| 0 <= k < ranking.len() implies probed_both(
                evaluate,
                calculate,
                current_neighborhood@,
                base_value,
                step_size,
                #[trigger] ranking[k],
            ) by {
                assert(probes.contains(ranking[k]));
            }
            assert(is_two_way_ranking(
                evaluate,
                calculate,
                current_neighborhood@,
                base_value,
                step_size,
                ranking@,
            ));
        }
        ranking
    }
}

} // verus!
