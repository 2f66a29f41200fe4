use bbob_optimizations::algorithms::common::arithmetic::Expression;
use bbob_optimizations::algorithms::common::rng::{
    UniformF64BoundedRandomGenerator,
    UniformU8RandomGenerator,
};
use bbob_optimizations::algorithms::common::structs::Minimum;
use bbob_optimizations::algorithms::firefly::individual_firefly::Firefly;
use bbob_optimizations::algorithms::firefly::options::{
    checked_jitter_variants,
    generate_multiple_jitter_variants,
    get_optimized_hyperparameters,
    mutate_each_option_as_duplicate,
    mutate_run,
    FireflyRunOptions,
    FullFireflyOptions,
    DEFAULT_RNG_SEED,
    PREPROCESSING_RNG_SEED,
    RNG_SEED_2,
    RNG_SEED_3,
};
use bbob_optimizations::algorithms::firefly::results::{
    FireflyFullOptimizationResult,
    FireflySingleRunOptimizationResult,
};
use bbob_optimizations::algorithms::firefly::swarm::FireflySwarm;
use bbob_optimizations::algorithms::firefly::utilities::PointValue;
use bbob_optimizations::algorithms::firefly::{
    do_one_firefly_optimization_run,
    do_one_firefly_optimization_run_with_starting_point,
    do_one_firefly_optimization_run_with_swarm,
    run_firefly_swarm_optimization,
    FireflyError,
};
use bbob_optimizations::bbob::functions::BBOBFunctionType;
use bbob_optimizations::bbob::problem::{BBOBProblem, Bounds};
use bbob_optimizations::scalar::Scalar;
use rand::distributions::{Distribution, Uniform};
use rand::SeedableRng;
use rand_pcg::Pcg64Mcg;

const SEED: [u8; 16] = [133, 66, 79, 177, 132, 191, 158, 217, 101, 170, 134, 109, 79, 56, 2, 31];

fn number(x: f64) -> Scalar {
    Scalar::from_bits(x.to_bits())
}

fn float(s: Scalar) -> f64 {
    f64::from_bits(s.to_bits())
}

fn numbers(xs: &[f64]) -> Vec<Scalar> {
    xs.iter().map(|x| number(*x)).collect()
}

fn floats(xs: &[Scalar]) -> Vec<f64> {
    xs.iter().map(|x| float(*x)).collect()
}

fn calculate(expression: Expression) -> Scalar {
    match expression {
        Expression::Sum(a, b) => number(float(a) + float(b)),
        Expression::Difference(a, b) => number(float(a) - float(b)),
        Expression::Product(a, b) => number(float(a) * float(b)),
        Expression::Quotient(a, b) => number(float(a) / float(b)),
        Expression::Power(a, b) => number(float(a).powf(float(b))),
        Expression::Exponential(a) => number(float(a).exp()),
        Expression::Count(n) => number(n as f64),
    }
}

fn sample(seed: &[u8; 16], draw: u128, low: Scalar, high: Scalar) -> Scalar {
    let mut rng = Pcg64Mcg::from_seed(*seed);
    rng.advance(draw);
    number(Uniform::new_inclusive(float(low), float(high)).sample(&mut rng))
}

fn sphere_of(position: &[f64]) -> f64 {
    position.iter().map(|x| x * x).sum()
}

fn sphere(position: &Vec<Scalar>) -> Scalar {
    number(sphere_of(&floats(position)))
}

fn problem(dimensions: usize) -> BBOBProblem {
    BBOBProblem {
        name: BBOBFunctionType::Sphere,
        input_dimensions: dimensions,
        bounds: Bounds::new(number(-5.0), number(5.0)),
    }
}

fn options(swarm_size: usize, maximum_iterations: usize) -> FireflyRunOptions {
    FireflyRunOptions::default()
        .with_swarm_size(swarm_size)
        .with_maximum_iterations(maximum_iterations)
        .with_consider_stuck_after_runs(maximum_iterations + 1)
}

/// The swarm written out in floating point, to hold the library against.
struct ReferenceSwarm {
    fireflies: Vec<(Vec<f64>, f64)>,
    best: Option<(Vec<f64>, f64)>,
    jitter: f64,
    stagnation: usize,
    jitter_rng: Pcg64Mcg,
}

fn reference_seeds(seed: [u8; 16], count: usize) -> Vec<[u8; 16]> {
    let mut rng = Pcg64Mcg::from_seed(seed);
    let bytes = Uniform::new_inclusive(u8::MIN, u8::MAX);
    (0..count)
        .map(|_| {
            let mut next = [0u8; 16];
            for byte in next.iter_mut() {
                *byte = bytes.sample(&mut rng);
            }
            next
        })
        .collect()
}

fn reference_random_swarm(
    position_seed: [u8; 16],
    jitter_seed: [u8; 16],
    dimensions: usize,
    run: &FireflyRunOptions,
) -> ReferenceSwarm {
    let mut rng = Pcg64Mcg::from_seed(position_seed);
    let within = Uniform::new_inclusive(-5.0f64, 5.0f64);
    let mut fireflies: Vec<(Vec<f64>, f64)> = (0..run.swarm_size)
        .map(|_| {
            let position: Vec<f64> = (0..dimensions).map(|_| within.sample(&mut rng)).collect();
            let value = sphere_of(&position);
            (position, value)
        })
        .collect();
    fireflies.sort_by(|first, second| second.1.total_cmp(&first.1));
    ReferenceSwarm {
        fireflies,
        best: None,
        jitter: float(run.movement_jitter_starting_coefficient),
        stagnation: 0,
        jitter_rng: Pcg64Mcg::from_seed(jitter_seed),
    }
}

fn reference_iteration(swarm: &mut ReferenceSwarm, run: &FireflyRunOptions) {
    let noise = Uniform::new_inclusive(-0.5f64, 0.5f64);
    let mut improved = false;
    let mut next = Vec::new();
    for main in 0..swarm.fireflies.len() {
        let (mut position, mut value) = swarm.fireflies[main].clone();
        for peer in (main + 1)..swarm.fireflies.len() {
            let (other, other_value) = &swarm.fireflies[peer];
            if *other_value < value {
                let distance: f64 =
                    position.iter().zip(other.iter()).map(|(a, b)| (a - b) * (a - b)).sum();
                let attraction = float(run.attractiveness_coefficient)
                    * std::f64::consts::E
                        .powf(-1f64 * float(run.light_absorption_coefficient) * distance);
                position = position
                    .iter()
                    .zip(other.iter())
                    .map(|(ours, theirs)| {
                        let updated = *ours
                            + attraction * (*theirs - *ours)
                            + swarm.jitter * noise.sample(&mut swarm.jitter_rng);
                        updated.clamp(-5.0, 5.0)
                    })
                    .collect();
                value = sphere_of(&position);
            }
        }
        if swarm.best.is_none() || value < swarm.best.as_ref().unwrap().1 {
            swarm.best = Some((position.clone(), value));
            improved = true;
        }
        next.push((position, value));
    }
    next.sort_by(|first, second| second.1.total_cmp(&first.1));
    swarm.fireflies = next;
    swarm.stagnation = if improved { 0 } else { swarm.stagnation + 1 };
    if swarm.stagnation < run.movement_jitter_min_stuck_runs_to_reheat {
        swarm.jitter = (swarm.jitter * float(run.movement_jitter_cooling_factor))
            .max(float(run.movement_jitter_minimum_coefficient));
    } else {
        swarm.jitter = (swarm.jitter * float(run.movement_jitter_heating_factor))
            .min(float(run.movement_jitter_maximum_coefficient));
    }
}

fn reference_run(swarm: &mut ReferenceSwarm, run: &FireflyRunOptions) -> usize {
    let mut iterations = 0;
    for _ in 0..run.maximum_iterations {
        iterations += 1;
        reference_iteration(swarm, run);
        if swarm.stagnation >= run.consider_stuck_after_n_iterations {
            break;
        }
    }
    iterations
}

fn assert_swarm_matches(swarm: &FireflySwarm, reference: &ReferenceSwarm) {
    assert_eq!(swarm.swarm_size(), reference.fireflies.len());
    for (firefly, (position, value)) in swarm.fireflies().iter().zip(reference.fireflies.iter()) {
        assert_eq!(floats(&firefly.position), *position);
        assert_eq!(float(firefly.objective_function_value), *value);
    }
    match (swarm.current_best_solution(), &reference.best) {
        (Some(best), Some((position, value))) => {
            assert_eq!(floats(&best.position), *position);
            assert_eq!(float(best.value), *value);
        }
        (None, None) => {}
        _ => panic!("one swarm has a best solution and the other has none"),
    }
    assert_eq!(float(swarm.current_movement_jitter_coefficient()), reference.jitter);
    assert_eq!(swarm.iterations_since_improvement(), reference.stagnation);
}

#[test]
fn default_options_are_the_documented_ones() {
    let options = FireflyRunOptions::default();
    assert_eq!(options.swarm_size, 150);
    assert_eq!(options.maximum_iterations, 2000);
    assert_eq!(options.consider_stuck_after_n_iterations, 500);
    assert_eq!(float(options.attractiveness_coefficient), 1.0);
    assert_eq!(float(options.light_absorption_coefficient), 0.025);
    assert_eq!(float(options.movement_jitter_starting_coefficient), 0.01);
    assert_eq!(float(options.movement_jitter_cooling_factor), 0.99);
    assert_eq!(options.movement_jitter_min_stuck_runs_to_reheat, 200);
    assert_eq!(float(options.movement_jitter_heating_factor), 1.1);
    assert_eq!(float(options.movement_jitter_minimum_coefficient), 0.005);
    assert_eq!(float(options.movement_jitter_maximum_coefficient), 0.5);
}

#[test]
fn builders_change_one_field_each() {
    let base = FireflyRunOptions::default();
    assert_eq!(base.with_swarm_size(7), FireflyRunOptions { swarm_size: 7, ..base });
    assert_eq!(
        base.with_maximum_iterations(8),
        FireflyRunOptions { maximum_iterations: 8, ..base }
    );
    assert_eq!(
        base.with_consider_stuck_after_runs(9),
        FireflyRunOptions { consider_stuck_after_n_iterations: 9, ..base }
    );
    assert_eq!(
        base.with_attractiveness_coefficient(number(0.25)),
        FireflyRunOptions { attractiveness_coefficient: number(0.25), ..base }
    );
    assert_eq!(
        base.with_light_absorption_coefficient(number(0.5)),
        FireflyRunOptions { light_absorption_coefficient: number(0.5), ..base }
    );
    assert_eq!(
        base.with_movement_jitter_starting_coefficient(number(0.75)),
        FireflyRunOptions { movement_jitter_starting_coefficient: number(0.75), ..base }
    );
    assert_eq!(
        base.with_movement_jitter_cooling_factor(number(0.9)),
        FireflyRunOptions { movement_jitter_cooling_factor: number(0.9), ..base }
    );
    assert_eq!(
        base.with_movement_jitter_min_stuck_runs_to_reheat(11),
        FireflyRunOptions { movement_jitter_min_stuck_runs_to_reheat: 11, ..base }
    );
    assert_eq!(
        base.with_movement_jitter_heating_factor(number(1.5)),
        FireflyRunOptions { movement_jitter_heating_factor: number(1.5), ..base }
    );
    assert_eq!(
        base.with_movement_jitter_minimum_coefficient(number(0.001)),
        FireflyRunOptions { movement_jitter_minimum_coefficient: number(0.001), ..base }
    );
    assert_eq!(
        base.with_movement_jitter_maximum_coefficient(number(2.0)),
        FireflyRunOptions { movement_jitter_maximum_coefficient: number(2.0), ..base }
    );
}

#[test]
fn jitter_variants_are_the_tabulated_ones() {
    let base = FireflyRunOptions::default().with_swarm_size(80).with_maximum_iterations(300);
    let variants = generate_multiple_jitter_variants(base);
    assert_eq!(variants.len(), 5);
    assert_eq!(variants[0], base);

    let expected: [(usize, usize, usize, f64, f64, usize, f64, f64, f64); 4] = [
        (80, 300, 2000, 0.3, 0.9999, 120, 1.05, 0.06, 8.0),
        (80, 300, 1000, 0.18, 0.999, 250, 1.01, 0.05, 0.6),
        (80, 300, 1000, 0.1, 0.9995, 400, 1.02, 0.02, 0.15),
        (50, 3000, 2000, 0.005, 0.996, 800, 1.0001, 0.0004, 0.01),
    ];
    for (variant, row) in variants[1..].iter().zip(expected.iter()) {
        assert_eq!(variant.swarm_size, row.0);
        assert_eq!(variant.maximum_iterations, row.1);
        assert_eq!(variant.consider_stuck_after_n_iterations, row.2);
        assert_eq!(float(variant.movement_jitter_starting_coefficient), row.3);
        assert_eq!(float(variant.movement_jitter_cooling_factor), row.4);
        assert_eq!(variant.movement_jitter_min_stuck_runs_to_reheat, row.5);
        assert_eq!(float(variant.movement_jitter_heating_factor), row.6);
        assert_eq!(float(variant.movement_jitter_minimum_coefficient), row.7);
        assert_eq!(float(variant.movement_jitter_maximum_coefficient), row.8);
        assert_eq!(variant.attractiveness_coefficient, base.attractiveness_coefficient);
        assert_eq!(variant.light_absorption_coefficient, base.light_absorption_coefficient);
    }
}

#[test]
fn jitter_variants_need_room_for_ten_times_the_iterations() {
    let fits = FireflyRunOptions::default().with_maximum_iterations(usize::MAX / 10);
    assert_eq!(checked_jitter_variants(fits).unwrap().len(), 5);
    let too_many = FireflyRunOptions::default().with_maximum_iterations(usize::MAX / 10 + 1);
    assert!(checked_jitter_variants(too_many).is_none());
}

#[test]
fn results_keep_what_they_are_given() {
    let single = FireflySingleRunOptimizationResult::new(12, PointValue::new(numbers(&[1.0]), number(1.0)));
    assert_eq!(single.iterations_performed, 12);
    assert_eq!(floats(&single.minimum.position), vec![1.0]);
    let full = FireflyFullOptimizationResult::new(vec![3, 4], Minimum::new(number(2.0), numbers(&[0.5])));
    assert_eq!(full.iterations_performed_per_restart, vec![3, 4]);
    assert_eq!(float(full.minimum.value), 2.0);
    assert_eq!(floats(&full.minimum.vector), vec![0.5]);
}

#[test]
fn a_point_becomes_a_minimum() {
    let minimum = Minimum::from(PointValue::new(numbers(&[1.0, -2.0]), number(5.0)));
    assert_eq!(float(minimum.value), 5.0);
    assert_eq!(floats(&minimum.vector), vec![1.0, -2.0]);
    let copy = PointValue::new(numbers(&[3.0]), number(9.0)).duplicate();
    assert_eq!(floats(&copy.position), vec![3.0]);
    assert_eq!(float(copy.value), 9.0);
}

#[test]
fn a_new_firefly_is_evaluated_where_it_stands() {
    let firefly = Firefly::new(numbers(&[3.0, -4.0]), &problem(2), &sphere);
    assert_eq!(floats(&firefly.position), vec![3.0, -4.0]);
    assert_eq!(float(firefly.objective_function_value), 25.0);
    let copy = firefly.duplicate();
    assert_eq!(copy.position, firefly.position);
    assert_eq!(copy.objective_function_value, firefly.objective_function_value);
}

#[test]
fn attraction_falls_off_with_the_squared_distance() {
    let options = FireflyRunOptions::default();
    let attraction =
        Firefly::attraction(&numbers(&[0.0, 0.0]), &numbers(&[3.0, 4.0]), &options, &calculate);
    assert_eq!(float(attraction), 1.0 * std::f64::consts::E.powf(-1.0f64 * 0.025 * 25.0));
    let at_distance_zero =
        Firefly::attraction(&numbers(&[1.0, 2.0]), &numbers(&[1.0, 2.0]), &options, &calculate);
    assert_eq!(float(at_distance_zero), 1.0);
    let weaker = options.with_attractiveness_coefficient(number(0.5));
    let half = Firefly::attraction(&numbers(&[0.0]), &numbers(&[2.0]), &weaker, &calculate);
    assert_eq!(float(half), 0.5 * std::f64::consts::E.powf(-1.0f64 * 0.025 * 4.0));
}

#[test]
fn a_move_without_jitter_goes_the_attraction_s_share_of_the_way() {
    let options = FireflyRunOptions::default();
    let mut firefly = Firefly::new(numbers(&[0.0, 0.0]), &problem(2), &sphere);
    let brighter = Firefly::new(numbers(&[3.0, 4.0]), &problem(2), &sphere);
    let mut jitter = UniformF64BoundedRandomGenerator::new(
        Bounds::new(number(-0.5), number(0.5)),
        SEED,
    );
    firefly.move_towards(
        &brighter,
        problem(2).bounds(),
        &mut jitter,
        number(0.0),
        &options,
        &sphere,
        &sample,
        &calculate,
    );
    let attraction = std::f64::consts::E.powf(-1.0f64 * 0.025 * 25.0);
    let mut rng = Pcg64Mcg::from_seed(SEED);
    let noise = Uniform::new_inclusive(-0.5f64, 0.5f64);
    let expected = vec![
        0.0 + attraction * (3.0 - 0.0) + 0.0 * noise.sample(&mut rng),
        0.0 + attraction * (4.0 - 0.0) + 0.0 * noise.sample(&mut rng),
    ];
    assert_eq!(floats(&firefly.position), expected);
    assert_eq!(float(firefly.objective_function_value), sphere_of(&expected));
}

#[test]
fn a_move_adds_jitter_from_the_stream_and_stays_within_bounds() {
    let options = FireflyRunOptions::default().with_light_absorption_coefficient(number(0.0));
    let mut firefly = Firefly::new(numbers(&[4.9, -4.9, 0.0]), &problem(3), &sphere);
    let brighter = Firefly::new(numbers(&[5.0, -5.0, 1.0]), &problem(3), &sphere);
    let mut jitter = UniformF64BoundedRandomGenerator::new(
        Bounds::new(number(-0.5), number(0.5)),
        SEED,
    );
    firefly.move_towards(
        &brighter,
        problem(3).bounds(),
        &mut jitter,
        number(4.0),
        &options,
        &sphere,
        &sample,
        &calculate,
    );
    let mut rng = Pcg64Mcg::from_seed(SEED);
    let noise = Uniform::new_inclusive(-0.5f64, 0.5f64);
    let expected: Vec<f64> = [(4.9, 5.0), (-4.9, -5.0), (0.0, 1.0)]
        .iter()
        .map(|(ours, theirs): &(f64, f64)| {
            (ours + 1.0 * (theirs - ours) + 4.0 * noise.sample(&mut rng)).clamp(-5.0, 5.0)
        })
        .collect();
    assert_eq!(floats(&firefly.position), expected);
    assert!(problem(3).bounds().contains_position(&firefly.position));
    assert_eq!(float(firefly.objective_function_value), sphere_of(&expected));

    // The next move goes on in the stream where this one stopped.
    let next = float(jitter.sample(&sample));
    assert_eq!(next, noise.sample(&mut rng));
}

#[test]
fn a_random_swarm_is_drawn_from_the_seeds_and_sorted() {
    let run = options(12, 10);
    let mut seeds = UniformU8RandomGenerator::new(SEED);
    let swarm = FireflySwarm::initialize_random(&problem(3), &mut seeds, &run, &sphere, &sample);
    let derived = reference_seeds(SEED, 2);
    let reference = reference_random_swarm(derived[0], derived[1], 3, &run);
    assert_swarm_matches(&swarm, &reference);
    assert_eq!(seeds.bytes_drawn(), 32);
    let values: Vec<f64> =
        swarm.fireflies().iter().map(|f| float(f.objective_function_value)).collect();
    assert!(values.windows(2).all(|pair| pair[0] >= pair[1]));
    assert!(swarm.current_best_solution().is_none());
    assert_eq!(swarm.iterations_since_improvement(), 0);
    assert_eq!(float(swarm.current_movement_jitter_coefficient()), 0.01);
}

#[test]
fn a_swarm_at_a_point_has_all_fireflies_there() {
    let run = options(5, 10);
    let mut seeds = UniformU8RandomGenerator::new(SEED);
    let swarm = FireflySwarm::initialize_at_point(
        &problem(2),
        &mut seeds,
        &run,
        numbers(&[1.0, -2.0]),
        &sphere,
    );
    assert_eq!(swarm.swarm_size(), 5);
    for firefly in swarm.fireflies() {
        assert_eq!(floats(&firefly.position), vec![1.0, -2.0]);
        assert_eq!(float(firefly.objective_function_value), 5.0);
    }
    assert_eq!(seeds.bytes_drawn(), 16);
    assert!(swarm.current_best_solution().is_none());
}

#[test]
fn iterations_follow_the_algorithm_step_by_step() {
    let run = options(10, 30)
        .with_movement_jitter_starting_coefficient(number(0.3))
        .with_movement_jitter_min_stuck_runs_to_reheat(2);
    let mut seeds = UniformU8RandomGenerator::new(SEED);
    let mut swarm = FireflySwarm::initialize_random(&problem(4), &mut seeds, &run, &sphere, &sample);
    let derived = reference_seeds(SEED, 2);
    let mut reference = reference_random_swarm(derived[0], derived[1], 4, &run);
    for _ in 0..30 {
        swarm.perform_iteration(&sphere, &sample, &calculate);
        reference_iteration(&mut reference, &run);
        assert_swarm_matches(&swarm, &reference);
    }
}

#[test]
fn the_population_keeps_its_size() {
    for size in [1usize, 2, 3, 7, 20] {
        let run = options(size, 10);
        let mut seeds = UniformU8RandomGenerator::new(SEED);
        let mut swarm =
            FireflySwarm::initialize_random(&problem(2), &mut seeds, &run, &sphere, &sample);
        assert_eq!(swarm.swarm_size(), size);
        for _ in 0..10 {
            swarm.perform_iteration(&sphere, &sample, &calculate);
            assert_eq!(swarm.swarm_size(), size);
            assert_eq!(swarm.fireflies().len(), size);
        }
    }
}

#[test]
fn the_best_solution_never_gets_worse() {
    let run = options(15, 60).with_movement_jitter_starting_coefficient(number(0.4));
    let mut seeds = UniformU8RandomGenerator::new(SEED);
    let mut swarm = FireflySwarm::initialize_random(&problem(3), &mut seeds, &run, &sphere, &sample);
    let mut last: Option<f64> = None;
    for _ in 0..60 {
        swarm.perform_iteration(&sphere, &sample, &calculate);
        let best = float(swarm.current_best_solution().unwrap().value);
        if let Some(before) = last {
            assert!(best <= before);
        }
        last = Some(best);
    }
}

#[test]
fn the_jitter_coefficient_stays_in_its_range() {
    let run = options(6, 200)
        .with_movement_jitter_starting_coefficient(number(0.01))
        .with_movement_jitter_min_stuck_runs_to_reheat(3);
    let mut seeds = UniformU8RandomGenerator::new(SEED);
    let mut swarm = FireflySwarm::initialize_random(&problem(2), &mut seeds, &run, &sphere, &sample);
    let mut cooled_to_the_minimum = false;
    for _ in 0..200 {
        swarm.perform_iteration(&sphere, &sample, &calculate);
        let jitter = float(swarm.current_movement_jitter_coefficient());
        assert!((0.005..=0.5).contains(&jitter));
        cooled_to_the_minimum |= jitter == 0.005;
    }
    assert!(cooled_to_the_minimum);
}

#[test]
fn next_jitter_cools_to_the_minimum_and_heats_to_the_maximum() {
    let run = FireflyRunOptions::default();
    assert_eq!(float(FireflySwarm::jitter_factor(&run, 0)), 0.99);
    assert_eq!(float(FireflySwarm::jitter_factor(&run, 199)), 0.99);
    assert_eq!(float(FireflySwarm::jitter_factor(&run, 200)), 1.1);
    assert_eq!(float(FireflySwarm::next_jitter(&run, 0, number(0.0099))), 0.0099);
    assert_eq!(float(FireflySwarm::next_jitter(&run, 0, number(0.0049))), 0.005);
    assert_eq!(float(FireflySwarm::next_jitter(&run, 200, number(0.3))), 0.3);
    assert_eq!(float(FireflySwarm::next_jitter(&run, 200, number(0.55))), 0.5);
    assert_eq!(float(FireflySwarm::next_jitter(&run, 0, number(f64::NAN))), 0.005);
    assert_eq!(float(FireflySwarm::next_jitter(&run, 200, number(f64::NAN))), 0.5);
}

#[test]
fn the_best_is_replaced_only_by_a_strictly_smaller_value() {
    let run = options(1, 10);
    let mut seeds = UniformU8RandomGenerator::new(SEED);
    let mut swarm = FireflySwarm::initialize_at_point(
        &problem(1),
        &mut seeds,
        &run,
        numbers(&[2.0]),
        &sphere,
    );
    assert!(swarm.is_better_than_minimum(number(1e300)));
    assert!(swarm.is_better_than_minimum(number(f64::NAN)));
    swarm.update_minimum_value_unchecked(number(4.0), numbers(&[2.0]));
    assert!(swarm.is_better_than_minimum(number(3.9)));
    assert!(!swarm.is_better_than_minimum(number(4.0)));
    assert!(!swarm.is_better_than_minimum(number(4.1)));
    assert!(!swarm.is_better_than_minimum(number(f64::NAN)));
    let best = swarm.current_best_solution().unwrap();
    assert_eq!(float(best.value), 4.0);
    assert_eq!(floats(&best.position), vec![2.0]);
}

#[test]
fn sphere_in_two_dimensions_is_minimised() {
    let run = options(20, 200);
    let mut seeds = UniformU8RandomGenerator::new(SEED);
    let result =
        do_one_firefly_optimization_run(&problem(2), &run, &mut seeds, &sphere, &sample, &calculate)
            .unwrap();
    assert_eq!(result.iterations_performed, 200);
    assert!(float(result.minimum.value) < 1e-2);
    assert_eq!(float(result.minimum.value), sphere_of(&floats(&result.minimum.position)));
}

#[test]
fn a_single_firefly_never_moves() {
    let run = options(1, 50);
    let mut seeds = UniformU8RandomGenerator::new(SEED);
    let mut swarm = FireflySwarm::initialize_random(&problem(2), &mut seeds, &run, &sphere, &sample);
    let start = floats(&swarm.fireflies()[0].position);
    let value = float(swarm.fireflies()[0].objective_function_value);
    assert_eq!(value, sphere_of(&start));
    for _ in 0..50 {
        swarm.perform_iteration(&sphere, &sample, &calculate);
        assert_eq!(floats(&swarm.fireflies()[0].position), start);
        let best = swarm.current_best_solution().unwrap();
        assert_eq!(float(best.value), value);
        assert_eq!(floats(&best.position), start);
    }
    let mut again = UniformU8RandomGenerator::new(SEED);
    let result =
        do_one_firefly_optimization_run(&problem(2), &run, &mut again, &sphere, &sample, &calculate)
            .unwrap();
    assert_eq!(float(result.minimum.value), value);
    assert_eq!(result.iterations_performed, 50);
}

#[test]
fn a_run_matches_the_algorithm() {
    let run = options(8, 120)
        .with_consider_stuck_after_runs(15)
        .with_movement_jitter_min_stuck_runs_to_reheat(5);
    let mut seeds = UniformU8RandomGenerator::new(SEED);
    let result =
        do_one_firefly_optimization_run(&problem(3), &run, &mut seeds, &sphere, &sample, &calculate)
            .unwrap();
    let derived = reference_seeds(SEED, 2);
    let mut reference = reference_random_swarm(derived[0], derived[1], 3, &run);
    let iterations = reference_run(&mut reference, &run);
    assert_eq!(result.iterations_performed, iterations);
    let (position, value) = reference.best.unwrap();
    assert_eq!(floats(&result.minimum.position), position);
    assert_eq!(float(result.minimum.value), value);
}

#[test]
fn a_run_stops_when_it_is_stuck() {
    // Without attraction and without jitter no firefly ever changes place, so
    // only the first iteration finds a better best solution.
    let run = options(8, 400)
        .with_consider_stuck_after_runs(15)
        .with_attractiveness_coefficient(number(0.0))
        .with_movement_jitter_starting_coefficient(number(0.0))
        .with_movement_jitter_minimum_coefficient(number(0.0))
        .with_movement_jitter_maximum_coefficient(number(0.0));
    let mut seeds = UniformU8RandomGenerator::new(SEED);
    let swarm = FireflySwarm::initialize_random(&problem(3), &mut seeds, &run, &sphere, &sample);
    let best_at_start = float(swarm.fireflies()[7].objective_function_value);
    let result =
        do_one_firefly_optimization_run_with_swarm(&run, swarm, &sphere, &sample, &calculate).unwrap();
    assert_eq!(result.iterations_performed, 16);
    assert_eq!(float(result.minimum.value), best_at_start);
}

#[test]
fn identical_seeds_give_identical_runs() {
    let run = options(10, 80).with_consider_stuck_after_runs(30);
    let mut first_seeds = UniformU8RandomGenerator::new(SEED);
    let mut second_seeds = UniformU8RandomGenerator::new(SEED);
    let first = do_one_firefly_optimization_run(
        &problem(5),
        &run,
        &mut first_seeds,
        &sphere,
        &sample,
        &calculate,
    )
    .unwrap();
    let second = do_one_firefly_optimization_run(
        &problem(5),
        &run,
        &mut second_seeds,
        &sphere,
        &sample,
        &calculate,
    )
    .unwrap();
    assert_eq!(first.iterations_performed, second.iterations_performed);
    assert_eq!(first.minimum.position, second.minimum.position);
    assert_eq!(first.minimum.value, second.minimum.value);

    let mut other_seeds = UniformU8RandomGenerator::new([9; 16]);
    let other = do_one_firefly_optimization_run(
        &problem(5),
        &run,
        &mut other_seeds,
        &sphere,
        &sample,
        &calculate,
    )
    .unwrap();
    assert_ne!(first.minimum.position, other.minimum.position);
}

#[test]
fn a_run_with_a_swarm_at_hand_goes_on_from_it() {
    let run = options(6, 25);
    let mut seeds = UniformU8RandomGenerator::new(SEED);
    let swarm = FireflySwarm::initialize_random(&problem(2), &mut seeds, &run, &sphere, &sample);
    let worst = float(swarm.fireflies()[0].objective_function_value);
    let result =
        do_one_firefly_optimization_run_with_swarm(&run, swarm, &sphere, &sample, &calculate).unwrap();
    assert_eq!(result.iterations_performed, 25);
    assert!(float(result.minimum.value) <= worst);
}

#[test]
fn a_run_without_fireflies_or_iterations_has_no_solution() {
    let mut seeds = UniformU8RandomGenerator::new(SEED);
    let empty = options(0, 10).with_consider_stuck_after_runs(4);
    let error =
        do_one_firefly_optimization_run(&problem(2), &empty, &mut seeds, &sphere, &sample, &calculate)
            .unwrap_err();
    assert_eq!(error, FireflyError::InvalidSwarm { iterations_performed: 4 });
    assert_eq!(error.iterations_performed(), 4);
    assert_eq!(error.message(), "BUG: Invalid swarm, no solution!");

    let idle = options(5, 0);
    let error =
        do_one_firefly_optimization_run(&problem(2), &idle, &mut seeds, &sphere, &sample, &calculate)
            .unwrap_err();
    assert_eq!(error, FireflyError::InvalidSwarm { iterations_performed: 0 });
}

#[test]
fn a_refinement_run_starts_at_the_given_point() {
    let run = options(5, 40).with_movement_jitter_starting_coefficient(number(0.05));
    let mut seeds = UniformU8RandomGenerator::new(SEED);
    let result = do_one_firefly_optimization_run_with_starting_point(
        &problem(2),
        &run,
        &mut seeds,
        numbers(&[0.5, -0.5]),
        &sphere,
        &sample,
        &calculate,
    )
    .unwrap();
    assert_eq!(seeds.bytes_drawn(), 16);
    assert_eq!(result.iterations_performed, 40);
    // All fireflies start equal, so none is ever outshone and none moves.
    assert_eq!(floats(&result.minimum.position), vec![0.5, -0.5]);
    assert_eq!(float(result.minimum.value), 0.5);
}

#[test]
fn a_full_optimization_keeps_the_best_of_its_restarts() {
    let restarts = vec![
        options(6, 30),
        options(10, 50).with_movement_jitter_starting_coefficient(number(0.2)),
        options(4, 20),
    ];
    let full = FullFireflyOptions {
        random_generator_seed: SEED,
        per_restart_options: restarts.clone(),
        post_process_best_options: None,
    };
    let result =
        run_firefly_swarm_optimization(&problem(3), full, &sphere, &sample, &calculate).unwrap();
    assert_eq!(result.iterations_performed_per_restart, vec![30, 50, 20]);

    let derived = reference_seeds(SEED, 6);
    let mut best: Option<(Vec<f64>, f64)> = None;
    for (index, run) in restarts.iter().enumerate() {
        let mut reference =
            reference_random_swarm(derived[2 * index], derived[2 * index + 1], 3, run);
        reference_run(&mut reference, run);
        let found = reference.best.unwrap();
        if best.is_none() || found.1 < best.as_ref().unwrap().1 {
            best = Some(found);
        }
    }
    let (position, value) = best.unwrap();
    assert_eq!(floats(&result.minimum.vector), position);
    assert_eq!(float(result.minimum.value), value);
}

#[test]
fn refinement_never_worsens_the_explored_best() {
    let restarts = vec![options(8, 40), options(8, 40)];
    let explore_only = FullFireflyOptions {
        random_generator_seed: SEED,
        per_restart_options: restarts.clone(),
        post_process_best_options: None,
    };
    let explored =
        run_firefly_swarm_optimization(&problem(2), explore_only, &sphere, &sample, &calculate)
            .unwrap();
    let with_refinement = FullFireflyOptions {
        random_generator_seed: SEED,
        per_restart_options: restarts,
        post_process_best_options: Some(vec![
            options(6, 30).with_movement_jitter_starting_coefficient(number(0.005)),
            options(6, 30),
        ]),
    };
    let refined =
        run_firefly_swarm_optimization(&problem(2), with_refinement, &sphere, &sample, &calculate)
            .unwrap();
    assert_eq!(refined.iterations_performed_per_restart, vec![40, 40]);
    assert!(float(refined.minimum.value) <= float(explored.minimum.value));
    // Fireflies that start at one point never outshine each other, so the
    // refinement leaves the explored best where it is.
    assert_eq!(refined.minimum.vector, explored.minimum.vector);
}

#[test]
fn a_full_optimization_without_a_restart_fails() {
    let none = FullFireflyOptions {
        random_generator_seed: SEED,
        per_restart_options: vec![],
        post_process_best_options: Some(vec![options(5, 5)]),
    };
    let error =
        run_firefly_swarm_optimization(&problem(2), none, &sphere, &sample, &calculate).unwrap_err();
    assert_eq!(error, FireflyError::NoSolution);
    assert_eq!(error.message(), "Invalid firefly optimization run: no solution!");
    assert_eq!(error.iterations_performed(), 0);
}

#[test]
fn a_restart_with_an_empty_swarm_fails_the_optimization_at_once() {
    let empty_first = FullFireflyOptions {
        random_generator_seed: SEED,
        per_restart_options: vec![
            options(0, 9).with_consider_stuck_after_runs(3),
            options(6, 30),
        ],
        post_process_best_options: None,
    };
    let error =
        run_firefly_swarm_optimization(&problem(2), empty_first, &sphere, &sample, &calculate)
            .unwrap_err();
    assert_eq!(error, FireflyError::InvalidSwarm { iterations_performed: 3 });

    let empty_last = FullFireflyOptions {
        random_generator_seed: SEED,
        per_restart_options: vec![options(6, 30), options(0, 5)],
        post_process_best_options: None,
    };
    let error =
        run_firefly_swarm_optimization(&problem(2), empty_last, &sphere, &sample, &calculate)
            .unwrap_err();
    assert_eq!(error, FireflyError::InvalidSwarm { iterations_performed: 5 });
    assert_eq!(error.message(), "BUG: Invalid swarm, no solution!");
}

#[test]
fn a_restart_without_iterations_fails_the_optimization_at_once() {
    let idle = FullFireflyOptions {
        random_generator_seed: SEED,
        per_restart_options: vec![options(6, 30), options(5, 0), options(0, 4)],
        post_process_best_options: None,
    };
    let error =
        run_firefly_swarm_optimization(&problem(2), idle, &sphere, &sample, &calculate).unwrap_err();
    assert_eq!(error, FireflyError::InvalidSwarm { iterations_performed: 0 });
}

#[test]
fn a_refinement_run_with_an_empty_swarm_fails_the_optimization_at_once() {
    let full = FullFireflyOptions {
        random_generator_seed: SEED,
        per_restart_options: vec![options(6, 30)],
        post_process_best_options: Some(vec![
            options(4, 10),
            options(0, 7).with_consider_stuck_after_runs(2),
            options(4, 10),
        ]),
    };
    let error =
        run_firefly_swarm_optimization(&problem(2), full, &sphere, &sample, &calculate).unwrap_err();
    assert_eq!(error, FireflyError::InvalidSwarm { iterations_performed: 2 });
}

#[test]
fn fireflies_of_the_same_value_keep_the_order_in_which_they_were_drawn() {
    let flat = |_position: &Vec<Scalar>| number(1.0);
    let run = options(9, 10);
    let mut seeds = UniformU8RandomGenerator::new(SEED);
    let swarm = FireflySwarm::initialize_random(&problem(2), &mut seeds, &run, &flat, &sample);
    let derived = reference_seeds(SEED, 2);
    let mut rng = Pcg64Mcg::from_seed(derived[0]);
    let within = Uniform::new_inclusive(-5.0f64, 5.0f64);
    for firefly in swarm.fireflies() {
        let drawn: Vec<f64> = (0..2).map(|_| within.sample(&mut rng)).collect();
        assert_eq!(floats(&firefly.position), drawn);
    }

    // Where only some values agree, those that agree keep their order.
    let coarse = |position: &Vec<Scalar>| number(float(position[0]).abs().floor());
    let mut seeds = UniformU8RandomGenerator::new(SEED);
    let swarm = FireflySwarm::initialize_random(&problem(2), &mut seeds, &run, &coarse, &sample);
    let mut rng = Pcg64Mcg::from_seed(derived[0]);
    let mut expected: Vec<(Vec<f64>, f64)> = (0..9)
        .map(|_| {
            let drawn: Vec<f64> = (0..2).map(|_| within.sample(&mut rng)).collect();
            let value = drawn[0].abs().floor();
            (drawn, value)
        })
        .collect();
    expected.sort_by(|first, second| second.1.total_cmp(&first.1));
    for (firefly, (position, value)) in swarm.fireflies().iter().zip(expected.iter()) {
        assert_eq!(floats(&firefly.position), *position);
        assert_eq!(float(firefly.objective_function_value), *value);
    }
}

/// The mutation written out in floating point, to hold the library against.
fn reference_mutation(
    runs: &[FireflyRunOptions],
    preprocessing_seed: [u8; 16],
    mutation_range: f64,
) -> Vec<FireflyRunOptions> {
    let mut rng = Pcg64Mcg::from_seed(preprocessing_seed);
    let uniform = Uniform::new_inclusive(1f64 - mutation_range, 1f64 + mutation_range);
    let mut all: Vec<FireflyRunOptions> = runs.to_vec();
    for run in runs {
        let mut count = |value: usize| ((value as f64) * uniform.sample(&mut rng)).round() as usize;
        let swarm_size = count(run.swarm_size);
        let maximum_iterations = count(run.maximum_iterations);
        let consider_stuck_after_n_iterations = count(run.consider_stuck_after_n_iterations);
        let mut scaled = |value: Scalar| uniform.sample(&mut rng) * float(value);
        let attractiveness_coefficient = scaled(run.attractiveness_coefficient);
        let light_absorption_coefficient = scaled(run.light_absorption_coefficient);
        let movement_jitter_starting_coefficient = scaled(run.movement_jitter_starting_coefficient);
        let movement_jitter_cooling_factor = scaled(run.movement_jitter_cooling_factor).min(1f64);
        let movement_jitter_min_stuck_runs_to_reheat = ((run.movement_jitter_min_stuck_runs_to_reheat
            as f64)
            * uniform.sample(&mut rng))
        .round() as usize;
        let mut scaled = |value: Scalar| uniform.sample(&mut rng) * float(value);
        let movement_jitter_heating_factor = scaled(run.movement_jitter_heating_factor).max(1f64);
        let movement_jitter_minimum_coefficient = scaled(run.movement_jitter_minimum_coefficient);
        let movement_jitter_maximum_coefficient = scaled(run.movement_jitter_maximum_coefficient);
        all.push(FireflyRunOptions {
            swarm_size,
            maximum_iterations,
            consider_stuck_after_n_iterations,
            attractiveness_coefficient: number(attractiveness_coefficient),
            light_absorption_coefficient: number(light_absorption_coefficient),
            movement_jitter_starting_coefficient: number(movement_jitter_starting_coefficient),
            movement_jitter_cooling_factor: number(movement_jitter_cooling_factor),
            movement_jitter_min_stuck_runs_to_reheat,
            movement_jitter_heating_factor: number(movement_jitter_heating_factor),
            movement_jitter_minimum_coefficient: number(movement_jitter_minimum_coefficient),
            movement_jitter_maximum_coefficient: number(movement_jitter_maximum_coefficient),
        });
    }
    all
}

#[test]
fn every_run_gets_a_mutated_duplicate() {
    let runs = generate_multiple_jitter_variants(FireflyRunOptions::default());
    let all = mutate_each_option_as_duplicate(
        runs.clone(),
        PREPROCESSING_RNG_SEED,
        Some(number(0.2)),
        &sample,
        &calculate,
    );
    assert_eq!(all.len(), 10);
    assert_eq!(all[..5], runs[..]);
    assert_eq!(all, reference_mutation(&runs, PREPROCESSING_RNG_SEED, 0.2));
    for (run, duplicate) in runs.iter().zip(all[5..].iter()) {
        assert_ne!(run, duplicate);
        assert!(float(duplicate.movement_jitter_cooling_factor) <= 1.0);
        assert!(float(duplicate.movement_jitter_heating_factor) >= 1.0);
        let share = duplicate.swarm_size as f64 / run.swarm_size as f64;
        assert!((0.79..=1.21).contains(&share));
    }
}

#[test]
fn the_mutation_range_is_a_twentieth_unless_given() {
    let runs = vec![FireflyRunOptions::default(), FireflyRunOptions::default().with_swarm_size(31)];
    let all = mutate_each_option_as_duplicate(runs.clone(), SEED, None, &sample, &calculate);
    assert_eq!(all, reference_mutation(&runs, SEED, 0.05));
    let nothing = mutate_each_option_as_duplicate(Vec::new(), SEED, None, &sample, &calculate);
    assert!(nothing.is_empty());
}

#[test]
fn a_mutated_run_takes_eleven_draws_in_the_order_of_its_parameters() {
    let run = FireflyRunOptions::default();
    let low = number(1.0 - 0.05);
    let high = number(1.0 + 0.05);
    let first = mutate_run(&run, &SEED, 0, low, high, &sample, &calculate);
    let second = mutate_run(&run, &SEED, 11, low, high, &sample, &calculate);
    let both = reference_mutation(&[run, run], SEED, 0.05);
    assert_eq!(first, both[2]);
    assert_eq!(second, both[3]);
}

#[test]
fn most_functions_are_optimized_with_the_common_options() {
    for function in [
        BBOBFunctionType::Sphere,
        BBOBFunctionType::Rastrigin,
        BBOBFunctionType::Katsuura,
        BBOBFunctionType::Schwefel,
    ] {
        let options = get_optimized_hyperparameters(function, &sample, &calculate);
        assert_eq!(options.random_generator_seed, DEFAULT_RNG_SEED);
        let base = FireflyRunOptions {
            swarm_size: 80,
            maximum_iterations: 20000,
            consider_stuck_after_n_iterations: 500,
            attractiveness_coefficient: number(1.0),
            light_absorption_coefficient: number(0.02),
            movement_jitter_starting_coefficient: number(0.065),
            movement_jitter_cooling_factor: number(0.985),
            movement_jitter_min_stuck_runs_to_reheat: 300,
            movement_jitter_heating_factor: number(1.01),
            movement_jitter_minimum_coefficient: number(0.005),
            movement_jitter_maximum_coefficient: number(0.115),
        };
        let variants = generate_multiple_jitter_variants(base);
        assert_eq!(
            options.per_restart_options,
            reference_mutation(&variants, PREPROCESSING_RNG_SEED, 0.05)
        );
        let refinement = options.post_process_best_options.unwrap();
        assert_eq!(refinement.len(), 2);
        assert_eq!(
            refinement[0],
            FireflyRunOptions {
                swarm_size: 100,
                maximum_iterations: 20000,
                consider_stuck_after_n_iterations: 1000,
                attractiveness_coefficient: number(1.0),
                light_absorption_coefficient: number(0.02),
                movement_jitter_starting_coefficient: number(0.18),
                movement_jitter_cooling_factor: number(0.999),
                movement_jitter_min_stuck_runs_to_reheat: 250,
                movement_jitter_heating_factor: number(1.01),
                movement_jitter_minimum_coefficient: number(0.05),
                movement_jitter_maximum_coefficient: number(0.6),
            }
        );
        assert_eq!(
            refinement[1],
            FireflyRunOptions {
                swarm_size: 100,
                maximum_iterations: 20000,
                consider_stuck_after_n_iterations: 2500,
                attractiveness_coefficient: number(1.0),
                light_absorption_coefficient: number(0.02),
                movement_jitter_starting_coefficient: number(0.005),
                movement_jitter_cooling_factor: number(0.996),
                movement_jitter_min_stuck_runs_to_reheat: 800,
                movement_jitter_heating_factor: number(1.0001),
                movement_jitter_minimum_coefficient: number(0.0002),
                movement_jitter_maximum_coefficient: number(0.01),
            }
        );
    }
}

#[test]
fn two_functions_have_options_of_their_own() {
    let separable =
        get_optimized_hyperparameters(BBOBFunctionType::SeparableEllipsoidal, &sample, &calculate);
    assert_eq!(separable.random_generator_seed, DEFAULT_RNG_SEED);
    let base = FireflyRunOptions {
        swarm_size: 40,
        maximum_iterations: 20000,
        consider_stuck_after_n_iterations: 1500,
        attractiveness_coefficient: number(1.0),
        light_absorption_coefficient: number(0.02),
        movement_jitter_starting_coefficient: number(0.065),
        movement_jitter_cooling_factor: number(0.985),
        movement_jitter_min_stuck_runs_to_reheat: 300,
        movement_jitter_heating_factor: number(1.01),
        movement_jitter_minimum_coefficient: number(0.01),
        movement_jitter_maximum_coefficient: number(0.115),
    };
    assert_eq!(separable.per_restart_options, generate_multiple_jitter_variants(base));
    assert_eq!(separable.post_process_best_options.unwrap().len(), 2);

    let lunacek =
        get_optimized_hyperparameters(BBOBFunctionType::LunacekBiRastrigin, &sample, &calculate);
    assert_eq!(lunacek.random_generator_seed, RNG_SEED_3);
    assert_ne!(RNG_SEED_3, RNG_SEED_2);
    let base = FireflyRunOptions {
        swarm_size: 150,
        maximum_iterations: 10000,
        consider_stuck_after_n_iterations: 800,
        attractiveness_coefficient: number(1.0),
        light_absorption_coefficient: number(0.001),
        movement_jitter_starting_coefficient: number(0.125),
        movement_jitter_cooling_factor: number(0.999),
        movement_jitter_min_stuck_runs_to_reheat: 200,
        movement_jitter_heating_factor: number(1.008),
        movement_jitter_minimum_coefficient: number(0.009),
        movement_jitter_maximum_coefficient: number(0.6),
    };
    assert_eq!(
        lunacek.per_restart_options,
        reference_mutation(&generate_multiple_jitter_variants(base), PREPROCESSING_RNG_SEED, 0.09)
    );
}
