use bbob_optimizations::algorithms::common::arithmetic::Expression;
use bbob_optimizations::algorithms::common::structs::State;
use bbob_optimizations::algorithms::simulated_annealing::neighborhood_generation::{
    rank_dimensions,
    synthesize,
    with_coordinate,
    LocalSearchNeighborhood,
    SANeighborhood,
    VectorElement,
    LS_STEP_MULTIPLES,
    SA_STEP_MULTIPLES,
};
use bbob_optimizations::algorithms::simulated_annealing::options::SAOptions;
use bbob_optimizations::algorithms::simulated_annealing::simulated_annealing::{
    best_of_runs,
    check_last_10_similar,
    global_search,
    local_search,
    run_sa,
    scan_neighborhood,
    shrink_step,
    within_tolerance,
    AnnealingProgress,
    LocalSearchProgress,
    SAError,
};
use bbob_optimizations::bbob::functions::BBOBFunctionType;
use bbob_optimizations::bbob::problem::{BBOBProblem, Bounds};
use bbob_optimizations::scalar::Scalar;
use rand::distributions::{Distribution, Uniform};
use rand::SeedableRng;
use rand_pcg::Pcg64Mcg;

fn number(x: f64) -> Scalar {
    Scalar::from_bits(x.to_bits())
}

fn float(s: Scalar) -> f64 {
    f64::from_bits(s.to_bits())
}

fn numbers(xs: &[f64]) -> Vec<Scalar> {
    xs.iter().map(|x| number(*x)).collect()
}

fn floats(xs: &[Scalar]) -> Vec<f64> {
    xs.iter().map(|x| float(*x)).collect()
}

fn calculate(expression: Expression) -> Scalar {
    match expression {
        Expression::Sum(a, b) => number(float(a) + float(b)),
        Expression::Difference(a, b) => number(float(a) - float(b)),
        Expression::Product(a, b) => number(float(a) * float(b)),
        Expression::Quotient(a, b) => number(float(a) / float(b)),
        Expression::Power(a, b) => number(float(a).powf(float(b))),
        Expression::Exponential(a) => number(float(a).exp()),
        Expression::Count(n) => number(n as f64),
    }
}

fn sample(seed: &[u8; 16], draw: u128, low: Scalar, high: Scalar) -> Scalar {
    let mut rng = Pcg64Mcg::from_seed(*seed);
    rng.advance(draw);
    number(Uniform::new_inclusive(float(low), float(high)).sample(&mut rng))
}

fn sphere_of(position: &[f64]) -> f64 {
    position.iter().map(|x| x * x).sum()
}

fn sphere(position: &Vec<Scalar>) -> Scalar {
    number(sphere_of(&floats(position)))
}

fn bounds() -> Bounds {
    Bounds::new(number(-5.0), number(5.0))
}

fn problem(dimensions: usize) -> BBOBProblem {
    BBOBProblem { name: BBOBFunctionType::Sphere, input_dimensions: dimensions, bounds: bounds() }
}

fn small_options(dimensions: usize) -> SAOptions {
    SAOptions { n_best_sa: dimensions, n_best_ls: dimensions, ..SAOptions::default() }
}

fn state(position: &[f64]) -> State {
    State { vector: numbers(position), objective_value: number(sphere_of(position)) }
}

fn positions(states: &[State]) -> Vec<Vec<f64>> {
    states.iter().map(|state| floats(&state.vector)).collect()
}

#[test]
fn default_sa_options_are_the_documented_ones() {
    let options = SAOptions::default();
    assert_eq!(options.function, BBOBFunctionType::AttractiveSector);
    assert_eq!(options.initial_temperature, 100);
    assert_eq!(float(options.annealing_schedule), 0.95);
    assert_eq!(options.max_iterations_sa, 2000);
    assert_eq!(options.max_iterations_ls, 1000);
    assert_eq!(float(options.initial_step_size_sa), 0.05);
    assert_eq!(float(options.initial_step_size_ls), 2.0);
    assert_eq!(float(options.min_temp), 1.0);
    assert_eq!(options.n_best_sa, 39);
    assert_eq!(options.n_best_ls, 39);
    assert_eq!(float(options.ls_step_decrease), 0.1);
    assert_eq!(
        options.seed,
        [67, 193, 140, 181, 155, 182, 45, 146, 4, 213, 77, 160, 217, 31, 143, 135]
    );
}

#[test]
fn states_start_without_a_value() {
    let fresh = State::new_without_value(numbers(&[1.0, 2.0]));
    assert_eq!(floats(&fresh.vector), vec![1.0, 2.0]);
    assert_eq!(float(fresh.objective_value), f64::MAX);
    let mut valued = fresh.duplicate();
    valued.set_objective_value(number(5.0));
    assert_eq!(float(valued.objective_value), 5.0);
    assert_eq!(floats(&valued.vector), vec![1.0, 2.0]);
    let empty = State::default();
    assert!(empty.vector.is_empty());
    assert_eq!(float(empty.objective_value), f64::MAX);
}

#[test]
fn a_dimension_moves_up_when_the_objective_falls_that_way() {
    assert!(VectorElement::new(3, number(0.5)).upward);
    assert!(!VectorElement::new(3, number(-0.5)).upward);
    assert!(!VectorElement::new(3, number(0.0)).upward);
    assert!(!VectorElement::new(3, number(f64::NAN)).upward);
    let element = VectorElement::new(7, number(1.25));
    assert_eq!(element.index, 7);
    assert_eq!(float(element.value_diff), 1.25);
}

#[test]
fn with_coordinate_replaces_one_coordinate() {
    let moved = with_coordinate(&numbers(&[1.0, 2.0, 3.0]), 1, number(-7.0));
    assert_eq!(floats(&moved), vec![1.0, -7.0, 3.0]);
}

#[test]
fn dimensions_are_ranked_by_fall_and_then_by_index() {
    let falls = [0.5, 2.0, -1.0, 2.0, 0.5, 3.0];
    let elements: Vec<VectorElement> =
        falls.iter().enumerate().map(|(index, fall)| VectorElement::new(index, number(*fall))).collect();
    let ranking = rank_dimensions(elements);
    let order: Vec<usize> = ranking.iter().map(|element| element.index).collect();
    assert_eq!(order, vec![5, 1, 3, 0, 4, 2]);
    let ranked_falls: Vec<f64> = ranking.iter().map(|element| float(element.value_diff)).collect();
    assert_eq!(ranked_falls, vec![3.0, 2.0, 2.0, 0.5, 0.5, -1.0]);
}

#[test]
fn a_candidate_beyond_the_boundary_is_left_out() {
    // From 4.0 the moves up by 0.5 and by 1.0 stay within the bounds; the
    // other eight of the ten leave them.
    let current = numbers(&[4.0, 0.0]);
    let ranking = vec![VectorElement::new(0, number(1.0))];
    let states = synthesize(&current, &ranking, bounds(), number(0.5), SA_STEP_MULTIPLES, 1, &calculate);
    assert_eq!(positions(&states), vec![vec![4.5, 0.0], vec![5.0, 0.0]]);
    assert_eq!(states.len(), SA_STEP_MULTIPLES - 8);

    // The first coordinate stands on the upper bound: every move up leaves
    // the bounds, but along the second dimension all ten stay within them.
    let current = numbers(&[5.0, 0.0]);
    let both = vec![VectorElement::new(0, number(1.0)), VectorElement::new(1, number(0.5))];
    let states = synthesize(&current, &both, bounds(), number(0.5), SA_STEP_MULTIPLES, 2, &calculate);
    assert_eq!(states.len(), 2 * SA_STEP_MULTIPLES - 10);
    for (multiple, state) in states.iter().enumerate() {
        assert_eq!(floats(&state.vector), vec![5.0, 0.5 * (multiple + 1) as f64]);
    }
}

#[test]
fn a_neighborhood_is_empty_only_if_every_move_leaves_the_bounds() {
    let ranking = vec![VectorElement::new(0, number(1.0))];
    let outside = numbers(&[6.0]);
    let states = synthesize(&outside, &ranking, bounds(), number(0.5), SA_STEP_MULTIPLES, 1, &calculate);
    assert!(states.is_empty());
    let on_the_bound = numbers(&[-5.0]);
    let down = vec![VectorElement::new(0, number(-1.0))];
    let states =
        synthesize(&on_the_bound, &down, bounds(), number(0.5), LS_STEP_MULTIPLES, 1, &calculate);
    assert!(states.is_empty());
    let inside = numbers(&[-4.0]);
    let states = synthesize(&inside, &down, bounds(), number(0.5), LS_STEP_MULTIPLES, 1, &calculate);
    assert_eq!(positions(&states), vec![vec![-4.5], vec![-5.0]]);
    let nothing_asked = synthesize(&inside, &down, bounds(), number(0.5), LS_STEP_MULTIPLES, 0, &calculate);
    assert!(nothing_asked.is_empty());
}

#[test]
fn candidates_follow_the_ranking_and_the_direction() {
    let current = numbers(&[0.0, 1.0, -1.0]);
    let ranking = vec![
        VectorElement::new(2, number(3.0)),
        VectorElement::new(0, number(-2.0)),
        VectorElement::new(1, number(-4.0)),
    ];
    let states = synthesize(&current, &ranking, bounds(), number(2.5), 3, 2, &calculate);
    assert_eq!(
        positions(&states),
        vec![
            vec![0.0, 1.0, 1.5],
            vec![0.0, 1.0, 4.0],
            vec![-2.5, 1.0, -1.0],
            vec![-5.0, 1.0, -1.0],
        ]
    );
    for state in &states {
        assert_eq!(float(state.objective_value), f64::MAX);
    }
}

#[test]
fn the_annealing_probe_nudges_each_dimension_up() {
    let current = numbers(&[1.0, -2.0, 0.5]);
    let neighborhood = SANeighborhood::new();
    let ranking = neighborhood.find_biggest_change(&current, &sphere, &calculate);
    let base = sphere_of(&[1.0, -2.0, 0.5]);
    let expected_fall = |index: usize| {
        let mut nudged = vec![1.0, -2.0, 0.5];
        nudged[index] += 0.01;
        base - sphere_of(&nudged)
    };
    let order: Vec<usize> = ranking.iter().map(|element| element.index).collect();
    assert_eq!(order, vec![1, 2, 0]);
    for element in &ranking {
        assert_eq!(float(element.value_diff), expected_fall(element.index));
        assert_eq!(element.upward, expected_fall(element.index) > 0.0);
    }
    assert!(ranking[0].upward);
    assert!(!ranking[1].upward);
}

#[test]
fn the_local_probe_looks_both_ways() {
    let current = numbers(&[1.0, -2.0, 0.5]);
    let neighborhood = LocalSearchNeighborhood::new();
    let ranking = neighborhood.find_biggest_change(&current, number(0.25), &sphere, &calculate);
    let base = sphere_of(&[1.0, -2.0, 0.5]);
    let falls = |index: usize| {
        let mut point = vec![1.0, -2.0, 0.5];
        point[index] += 0.25;
        let above = base - sphere_of(&point);
        point[index] -= 2.0 * 0.25;
        let below = base - sphere_of(&point);
        (above, below)
    };
    let order: Vec<usize> = ranking.iter().map(|element| element.index).collect();
    assert_eq!(order, vec![1, 0, 2]);
    for element in &ranking {
        let (above, below) = falls(element.index);
        assert_eq!(element.upward, above > below);
        assert_eq!(float(element.value_diff), if above > below { above } else { below });
    }
    assert!(ranking[0].upward);
    assert!(!ranking[1].upward);
    assert!(!ranking[2].upward);
}

#[test]
fn the_annealing_neighborhood_steps_along_the_best_dimensions() {
    let options = SAOptions {
        n_best_sa: 2,
        initial_step_size_sa: number(0.5),
        ..SAOptions::default()
    };
    let mut neighborhood = SANeighborhood::new();
    assert!(neighborhood.states.is_empty());
    neighborhood.generate_neighborhood(state(&[1.0, -2.0, 0.5]), &problem(3), options, &sphere, &calculate);
    let mut expected = Vec::new();
    for multiple in 1..=10 {
        let moved = -2.0 + 0.5 * multiple as f64;
        if moved <= 5.0 {
            expected.push(vec![1.0, moved, 0.5]);
        }
    }
    for multiple in 1..=10 {
        let moved = 0.5 - 0.5 * multiple as f64;
        if moved >= -5.0 {
            expected.push(vec![1.0, -2.0, moved]);
        }
    }
    assert_eq!(positions(&neighborhood.states), expected);
    assert_eq!(neighborhood.states.len(), 20);
}

#[test]
fn the_local_neighborhood_stays_within_the_bounds() {
    let options = SAOptions {
        n_best_ls: 3,
        initial_step_size_ls: number(2.0),
        ..SAOptions::default()
    };
    let mut neighborhood = LocalSearchNeighborhood::new();
    neighborhood.generate_neighborhood(state(&[4.0, -4.5, 0.0]), &problem(3), options, &sphere, &calculate);
    assert!(!neighborhood.states.is_empty());
    assert!(neighborhood.states.len() < 3 * LS_STEP_MULTIPLES);
    for candidate in &neighborhood.states {
        assert!(bounds().contains_position(&candidate.vector));
        let changed = floats(&candidate.vector)
            .iter()
            .zip([4.0, -4.5, 0.0].iter())
            .filter(|(moved, start)| moved != start)
            .count();
        assert_eq!(changed, 1);
    }
    // Along the first dimension the point moves down from 4.0 in steps of 2.
    let along_first: Vec<f64> = neighborhood
        .states
        .iter()
        .filter(|candidate| float(candidate.vector[1]) == -4.5 && float(candidate.vector[2]) == 0.0)
        .map(|candidate| float(candidate.vector[0]))
        .collect();
    assert!(along_first.contains(&2.0));
    assert!(along_first.contains(&-4.0));
    assert!(!along_first.contains(&-6.0));
}

#[test]
fn differences_of_at_most_a_hundredth_are_within_tolerance() {
    assert!(within_tolerance(number(0.0)));
    assert!(within_tolerance(number(0.01)));
    assert!(within_tolerance(number(-0.01)));
    assert!(!within_tolerance(number(0.010000000000000002)));
    assert!(!within_tolerance(number(-0.5)));
    assert!(within_tolerance(number(f64::NAN)));
}

#[test]
fn ten_similar_values_are_needed() {
    assert!(!check_last_10_similar(&numbers(&[1.0; 9]), &calculate));
    assert!(check_last_10_similar(&numbers(&[1.0; 10]), &calculate));
    let mut values = vec![1.0; 10];
    values[9] = 1.009;
    assert!(check_last_10_similar(&numbers(&values), &calculate));
    values[4] = 0.98;
    assert!(!check_last_10_similar(&numbers(&values), &calculate));
    let mut first_differs = vec![2.0; 10];
    first_differs[0] = 1.0;
    assert!(!check_last_10_similar(&numbers(&first_differs), &calculate));
}

#[test]
fn similar_values_are_within_the_tolerance_of_each_other() {
    // Every value is within a hundredth of the first, but the third and the
    // seventh are almost two hundredths apart.
    let mut values = vec![1.0; 10];
    values[2] = 1.009;
    values[6] = 0.991;
    assert!(!check_last_10_similar(&numbers(&values), &calculate));
    values[6] = 1.0;
    assert!(check_last_10_similar(&numbers(&values), &calculate));
    values[9] = 0.9995;
    assert!(check_last_10_similar(&numbers(&values), &calculate));
}

#[test]
fn a_small_step_is_multiplied_and_a_large_one_reduced() {
    assert_eq!(float(shrink_step(number(0.5), number(0.1), &calculate)), 0.5 * 0.1);
    assert_eq!(float(shrink_step(number(1.0), number(0.1), &calculate)), 1.0 * 0.1);
    assert_eq!(float(shrink_step(number(2.0), number(0.1), &calculate)), 2.0 - 0.1);
    assert_eq!(float(shrink_step(number(1.5), number(0.25), &calculate)), 1.25);
}

#[test]
fn scanning_keeps_the_first_of_the_smallest_values() {
    let states = vec![
        State::new_without_value(numbers(&[3.0])),
        State::new_without_value(numbers(&[-1.0])),
        State::new_without_value(numbers(&[1.0])),
        State::new_without_value(numbers(&[2.0])),
    ];
    let best = scan_neighborhood(&states, state(&[2.5]), &sphere);
    assert_eq!(floats(&best.vector), vec![-1.0]);
    assert_eq!(float(best.objective_value), 1.0);
    let unbeaten = scan_neighborhood(&states, state(&[0.5]), &sphere);
    assert_eq!(floats(&unbeaten.vector), vec![0.5]);
    assert_eq!(float(unbeaten.objective_value), 0.25);
    let alone = scan_neighborhood(&Vec::new(), state(&[4.0]), &sphere);
    assert_eq!(floats(&alone.vector), vec![4.0]);
}

#[test]
fn one_iteration_of_the_local_search_records_the_best_value() {
    let options = SAOptions { max_iterations_ls: 50, ..small_options(2) };
    let start = state(&[3.0, -1.0]);
    let mut progress = LocalSearchProgress::new(&start, &options);
    assert_eq!(floats(&progress.last_10_values), vec![0.0; 10]);
    assert_eq!(float(progress.step), 2.0);
    assert!(progress.continues(&options));
    progress.advance(&problem(2), &options, &sphere, &calculate);
    assert_eq!(progress.iterations, 1);
    // Moving the first coordinate down by 2 twice passes the best point on
    // that line, 3 - 2 = 1 and 3 - 4 = -1; the first that is found is kept.
    assert_eq!(floats(&progress.minimal.vector), vec![1.0, -1.0]);
    assert_eq!(float(progress.minimal.objective_value), 2.0);
    assert_eq!(float(progress.last_10_values[0]), 2.0);
    assert_eq!(float(progress.step), 2.0);
}

#[test]
fn the_local_search_never_ends_above_where_it_started() {
    for start_at in [[3.0, -1.0], [0.0, 0.0], [5.0, -5.0], [-0.3, 4.9]] {
        let options = SAOptions { max_iterations_ls: 200, ..small_options(2) };
        let start = state(&start_at);
        let result = local_search(&problem(2), &start, options, &sphere, &calculate).unwrap();
        assert!(float(result.value) <= sphere_of(&start_at));
        assert_eq!(float(result.value), sphere_of(&floats(&result.vector)));
        assert!(bounds().contains_position(&result.vector));
        assert_eq!(result.vector.len(), 2);
    }
}

#[test]
fn the_local_search_shrinks_its_step_and_closes_in() {
    let options = SAOptions { max_iterations_ls: 400, ..small_options(2) };
    let result = local_search(&problem(2), &state(&[3.3, -1.7]), options, &sphere, &calculate).unwrap();
    assert!(float(result.value) < 1e-2);
}

#[test]
fn the_local_search_without_iterations_hands_back_its_start() {
    let options = SAOptions { max_iterations_ls: 0, ..small_options(2) };
    let result = local_search(&problem(2), &state(&[3.0, -1.0]), options, &sphere, &calculate).unwrap();
    assert_eq!(floats(&result.vector), vec![3.0, -1.0]);
    assert_eq!(float(result.value), 10.0);
    let tiny_step = SAOptions { initial_step_size_ls: number(1e-16), ..small_options(2) };
    let result = local_search(&problem(2), &state(&[3.0, -1.0]), tiny_step, &sphere, &calculate).unwrap();
    assert_eq!(floats(&result.vector), vec![3.0, -1.0]);
}

#[test]
fn a_search_that_performs_no_iteration_never_fails() {
    // The options ask for more dimensions than the point has, but no
    // iteration is performed that would read them.
    let capped = SAOptions { max_iterations_ls: 0, ..small_options(7) };
    let result = local_search(&problem(2), &state(&[3.0, -1.0]), capped, &sphere, &calculate).unwrap();
    assert_eq!(floats(&result.vector), vec![3.0, -1.0]);
    assert_eq!(float(result.value), 10.0);
    let tiny_step = SAOptions { initial_step_size_ls: number(1e-16), ..small_options(7) };
    let result = local_search(&problem(2), &state(&[3.0, -1.0]), tiny_step, &sphere, &calculate).unwrap();
    assert_eq!(floats(&result.vector), vec![3.0, -1.0]);

    let mut rng = Pcg64Mcg::from_seed(capped.seed);
    let within = Uniform::new_inclusive(-5.0f64, 5.0f64);
    let start: Vec<f64> = (0..2).map(|_| within.sample(&mut rng)).collect();
    let no_walk = SAOptions { max_iterations_sa: 0, ..capped };
    let minimal = global_search(&problem(2), no_walk, &sphere, &sample, &calculate).unwrap();
    assert_eq!(floats(&minimal.vector), start);
    let cold = SAOptions { min_temp: number(100.0), ..capped };
    let minimal = global_search(&problem(2), cold, &sphere, &sample, &calculate).unwrap();
    assert_eq!(floats(&minimal.vector), start);
    let result = run_sa(&problem(2), no_walk, &sphere, &sample, &calculate).unwrap();
    assert_eq!(floats(&result.vector), start);
    assert_eq!(float(result.value), sphere_of(&start));
}

#[test]
fn too_many_dimensions_are_refused() {
    let options = small_options(3);
    let error = local_search(&problem(2), &state(&[3.0, -1.0]), options, &sphere, &calculate).unwrap_err();
    assert_eq!(error, SAError::TooManyDimensions);
    assert_eq!(error.message(), "The options ask for more dimensions than the problem has!");
    assert_eq!(
        global_search(&problem(2), options, &sphere, &sample, &calculate).unwrap_err(),
        SAError::TooManyDimensions
    );
    assert_eq!(
        run_sa(&problem(2), SAOptions { n_best_sa: 2, ..options }, &sphere, &sample, &calculate)
            .unwrap_err(),
        SAError::TooManyDimensions
    );
    assert_eq!(
        run_sa(&problem(2), SAOptions { n_best_ls: 2, ..options }, &sphere, &sample, &calculate)
            .unwrap_err(),
        SAError::TooManyDimensions
    );
    assert_eq!(
        run_sa(&problem(38), SAOptions::default(), &sphere, &sample, &calculate).unwrap_err(),
        SAError::TooManyDimensions
    );
}

#[test]
fn a_walk_starts_at_a_random_point_with_the_initial_temperature() {
    let options = small_options(3);
    let progress = AnnealingProgress::new(&problem(3), &options, &sphere, &sample, &calculate);
    let mut rng = Pcg64Mcg::from_seed(options.seed);
    let within = Uniform::new_inclusive(-5.0f64, 5.0f64);
    let start: Vec<f64> = (0..3).map(|_| within.sample(&mut rng)).collect();
    assert_eq!(floats(&progress.current.vector), start);
    assert_eq!(float(progress.current.objective_value), sphere_of(&start));
    assert_eq!(floats(&progress.minimal.vector), start);
    assert_eq!(float(progress.minimal.objective_value), sphere_of(&start));
    assert_eq!(float(progress.temperature), 100.0);
    assert_eq!(progress.iterations, 0);
    assert!(progress.continues(&options));
}

#[test]
fn acceptance_is_the_exponential_of_minus_the_rise_over_the_temperature() {
    let probability =
        AnnealingProgress::acceptance_probability(number(7.0), number(5.0), number(4.0), &calculate);
    assert_eq!(float(probability), (-(7.0f64 - 5.0) / 4.0).exp());
    let downhill =
        AnnealingProgress::acceptance_probability(number(3.0), number(5.0), number(4.0), &calculate);
    assert_eq!(float(downhill), (-(3.0f64 - 5.0) / 4.0).exp());
    assert!(float(downhill) > 1.0);
}

#[test]
fn an_iteration_of_the_walk_records_a_minimum_or_cools_down() {
    let options = small_options(3);
    let mut progress = AnnealingProgress::new(&problem(3), &options, &sphere, &sample, &calculate);
    for iteration in 1..=40u64 {
        let minimal_before = float(progress.minimal.objective_value);
        let temperature_before = float(progress.temperature);
        progress.advance(&problem(3), &options, &sphere, &sample, &calculate);
        assert_eq!(progress.iterations, iteration);
        let minimal_after = float(progress.minimal.objective_value);
        if minimal_after < minimal_before {
            assert_eq!(float(progress.temperature), temperature_before);
        } else {
            assert_eq!(minimal_after, minimal_before);
            assert_eq!(float(progress.temperature), temperature_before * 0.95);
        }
        assert_eq!(float(progress.minimal.objective_value), sphere_of(&floats(&progress.minimal.vector)));
        assert_eq!(float(progress.current.objective_value), sphere_of(&floats(&progress.current.vector)));
        assert!(bounds().contains_position(&progress.current.vector));
    }
}

#[test]
fn a_walk_that_starts_cold_hands_back_its_random_start() {
    // The minimum temperature lies above the initial temperature.
    let options = SAOptions { min_temp: number(150.0), ..small_options(4) };
    let minimal = global_search(&problem(4), options, &sphere, &sample, &calculate).unwrap();
    let mut rng = Pcg64Mcg::from_seed(options.seed);
    let within = Uniform::new_inclusive(-5.0f64, 5.0f64);
    let start: Vec<f64> = (0..4).map(|_| within.sample(&mut rng)).collect();
    assert_eq!(floats(&minimal.vector), start);
    assert_eq!(float(minimal.objective_value), sphere_of(&start));

    let expected =
        local_search(&problem(4), &minimal, options, &sphere, &calculate).unwrap();
    let result = run_sa(&problem(4), options, &sphere, &sample, &calculate).unwrap();
    assert_eq!(result.vector, expected.vector);
    assert_eq!(result.value, expected.value);
    assert!(float(result.value) <= sphere_of(&start));
}

#[test]
fn the_walk_ends_at_the_iteration_cap_or_the_minimum_temperature() {
    let capped = SAOptions { max_iterations_sa: 5, ..small_options(3) };
    let mut progress = AnnealingProgress::new(&problem(3), &capped, &sphere, &sample, &calculate);
    let mut iterations = 0;
    while progress.continues(&capped) {
        progress.advance(&problem(3), &capped, &sphere, &sample, &calculate);
        iterations += 1;
    }
    assert_eq!(iterations, 5);
    assert!(float(progress.temperature) > 1.0);

    let cooling = SAOptions { max_iterations_sa: 100_000, ..small_options(3) };
    let mut progress = AnnealingProgress::new(&problem(3), &cooling, &sphere, &sample, &calculate);
    while progress.continues(&cooling) {
        progress.advance(&problem(3), &cooling, &sphere, &sample, &calculate);
    }
    assert!(progress.iterations < 100_000);
    assert!(float(progress.temperature) <= 1.0);
}

#[test]
fn simulated_annealing_minimises_the_sphere() {
    let options = SAOptions { max_iterations_sa: 300, max_iterations_ls: 300, ..SAOptions::default() };
    let result = run_sa(&problem(40), options, &sphere, &sample, &calculate).unwrap();
    let mut rng = Pcg64Mcg::from_seed(options.seed);
    let within = Uniform::new_inclusive(-5.0f64, 5.0f64);
    let start: Vec<f64> = (0..40).map(|_| within.sample(&mut rng)).collect();
    assert_eq!(result.vector.len(), 40);
    assert!(float(result.value) < sphere_of(&start));
    assert_eq!(float(result.value), sphere_of(&floats(&result.vector)));
    assert!(bounds().contains_position(&result.vector));

    let again = run_sa(&problem(40), options, &sphere, &sample, &calculate).unwrap();
    assert_eq!(again.vector, result.vector);
    assert_eq!(again.value, result.value);
}

#[test]
fn the_best_of_several_runs_is_the_first_with_the_least_value() {
    let (value, place) = best_of_runs(&numbers(&[5.0, 3.0, 7.0, 3.0, f64::NAN, 4.0]));
    assert_eq!(float(value), 3.0);
    assert_eq!(place, 1);
    let (value, place) = best_of_runs(&numbers(&[-2.0]));
    assert_eq!(float(value), -2.0);
    assert_eq!(place, 0);
    let (value, place) = best_of_runs(&Vec::new());
    assert_eq!(float(value), f64::MAX);
    assert_eq!(place, 0);
    let (value, place) = best_of_runs(&numbers(&[f64::NAN, f64::INFINITY, f64::MAX]));
    assert_eq!(float(value), f64::MAX);
    assert_eq!(place, 0);
}
