use bbob_optimizations::algorithms::common::arithmetic::Expression;
use bbob_optimizations::algorithms::simulated_annealing::hyperparam_optimization::{
    adjust_options,
    can_adjust,
    can_adjust_all,
    can_perturb,
    can_probe,
    compare_runs,
    compare_runs_with_base,
    get_annealing_schedule_change,
    get_best_n_ls_change,
    get_best_n_sa_change,
    get_initial_step_change_ls,
    get_initial_step_change_sa,
    get_initial_temp_change,
    get_max_iter_ls_change,
    get_max_iter_sa_change,
    get_min_temp_change,
    get_optimal_params,
    get_option_change,
    get_value_changes,
    perturb_option,
    Direction,
    OptionValue,
    SAOption,
};
use bbob_optimizations::algorithms::simulated_annealing::options::SAOptions;
use bbob_optimizations::algorithms::simulated_annealing::simulated_annealing::{run_sa, SAError};
use bbob_optimizations::bbob::functions::BBOBFunctionType;
use bbob_optimizations::bbob::problem::{BBOBProblem, Bounds};
use bbob_optimizations::commands::{
    problems_to_run,
    CLIFireflyOptimizationArgs,
    CLIFireflyOptimizationMode,
    CLIRunOneArgs,
    CommandError,
};
use bbob_optimizations::scalar::Scalar;
use rand::distributions::{Distribution, Uniform};
use rand::SeedableRng;
use rand_pcg::Pcg64Mcg;

fn number(x: f64) -> Scalar {
    Scalar::from_bits(x.to_bits())
}

fn float(s: Scalar) -> f64 {
    f64::from_bits(s.to_bits())
}

fn calculate(expression: Expression) -> Scalar {
    match expression {
        Expression::Sum(a, b) => number(float(a) + float(b)),
        Expression::Difference(a, b) => number(float(a) - float(b)),
        Expression::Product(a, b) => number(float(a) * float(b)),
        Expression::Quotient(a, b) => number(float(a) / float(b)),
        Expression::Power(a, b) => number(float(a).powf(float(b))),
        Expression::Exponential(a) => number(float(a).exp()),
        Expression::Count(n) => number(n as f64),
    }
}

fn sample(seed: &[u8; 16], draw: u128, low: Scalar, high: Scalar) -> Scalar {
    let mut rng = Pcg64Mcg::from_seed(*seed);
    rng.advance(draw);
    number(Uniform::new_inclusive(float(low), float(high)).sample(&mut rng))
}

fn sphere(position: &Vec<Scalar>) -> Scalar {
    number(position.iter().map(|x| float(*x) * float(*x)).sum())
}

fn problem(dimensions: usize) -> BBOBProblem {
    BBOBProblem {
        name: BBOBFunctionType::Sphere,
        input_dimensions: dimensions,
        bounds: Bounds::new(number(-5.0), number(5.0)),
    }
}

fn change(option: SAOption, direction: Direction) -> OptionValue {
    OptionValue { option, option_diff: number(1.0), direction }
}

#[test]
fn directions_and_parameters_are_named_after_their_variants() {
    assert_eq!(Direction::Positive.name(), "Positive");
    assert_eq!(Direction::Negative.name(), "Negative");
    let names: Vec<&str> = SAOption::iterator().iter().map(|option| option.name()).collect();
    assert_eq!(
        names,
        vec![
            "InitialTemperature",
            "AnnealingSchedule",
            "MaxIterationsSa",
            "MaxIterationsLs",
            "InitialStepSizeSa",
            "InitialStepSizeLs",
            "MinTemp",
            "BestNSa",
            "BestNLs",
        ]
    );
}

#[test]
fn the_iterator_lists_the_parameters_in_order() {
    let all = SAOption::iterator();
    assert_eq!(all.len(), 9);
    assert_eq!(all[0], SAOption::InitialTemperature);
    assert_eq!(all[5], SAOption::InitialStepSizeLs);
    assert_eq!(all[8], SAOption::BestNLs);
    for (place, option) in all.iter().enumerate() {
        assert_eq!(option.ordinal(), place);
    }
}

#[test]
fn counts_move_by_fixed_amounts() {
    let base = SAOptions::default();
    let up = Direction::Positive;
    let down = Direction::Negative;
    assert_eq!(
        adjust_options(base, change(SAOption::InitialTemperature, up), &calculate).initial_temperature,
        102
    );
    assert_eq!(
        adjust_options(base, change(SAOption::InitialTemperature, down), &calculate)
            .initial_temperature,
        98
    );
    assert_eq!(
        adjust_options(base, change(SAOption::MaxIterationsSa, up), &calculate).max_iterations_sa,
        2500
    );
    assert_eq!(
        adjust_options(base, change(SAOption::MaxIterationsSa, down), &calculate).max_iterations_sa,
        1500
    );
    assert_eq!(
        adjust_options(base, change(SAOption::MaxIterationsLs, up), &calculate).max_iterations_ls,
        2000
    );
    assert_eq!(
        adjust_options(base, change(SAOption::MaxIterationsLs, down), &calculate).max_iterations_ls,
        0
    );
}

#[test]
fn numbers_move_by_their_own_rules() {
    let base = SAOptions::default();
    let up = Direction::Positive;
    let down = Direction::Negative;
    assert_eq!(
        float(adjust_options(base, change(SAOption::AnnealingSchedule, up), &calculate).annealing_schedule),
        0.95 + 0.01
    );
    assert_eq!(
        float(adjust_options(base, change(SAOption::AnnealingSchedule, down), &calculate).annealing_schedule),
        0.95 - 0.02
    );
    assert_eq!(
        float(adjust_options(base, change(SAOption::InitialStepSizeSa, up), &calculate).initial_step_size_sa),
        0.05 + 0.1
    );
    assert_eq!(
        float(
            adjust_options(base, change(SAOption::InitialStepSizeSa, down), &calculate)
                .initial_step_size_sa
        ),
        0.05 - 0.1
    );
    assert_eq!(
        float(adjust_options(base, change(SAOption::InitialStepSizeLs, up), &calculate).initial_step_size_ls),
        2.0 + 0.01
    );
    assert_eq!(
        float(
            adjust_options(base, change(SAOption::InitialStepSizeLs, down), &calculate)
                .initial_step_size_ls
        ),
        2.0 * 0.5
    );
    assert_eq!(
        float(adjust_options(base, change(SAOption::MinTemp, up), &calculate).min_temp),
        1.0 + 2.0
    );
    assert_eq!(
        float(adjust_options(base, change(SAOption::MinTemp, down), &calculate).min_temp),
        1.0 * 0.1
    );
}

#[test]
fn dimensions_move_by_one_but_not_beyond_thirty_nine() {
    let base = SAOptions::default();
    let up = Direction::Positive;
    let down = Direction::Negative;
    assert_eq!(adjust_options(base, change(SAOption::BestNSa, up), &calculate).n_best_sa, 39);
    assert_eq!(adjust_options(base, change(SAOption::BestNLs, up), &calculate).n_best_ls, 39);
    assert_eq!(adjust_options(base, change(SAOption::BestNSa, down), &calculate).n_best_sa, 38);
    assert_eq!(adjust_options(base, change(SAOption::BestNLs, down), &calculate).n_best_ls, 38);
    let fewer = SAOptions { n_best_sa: 10, n_best_ls: 20, ..base };
    assert_eq!(adjust_options(fewer, change(SAOption::BestNSa, up), &calculate).n_best_sa, 11);
    assert_eq!(adjust_options(fewer, change(SAOption::BestNLs, up), &calculate).n_best_ls, 21);
}

#[test]
fn an_adjustment_changes_nothing_else() {
    let base = SAOptions::default();
    let adjusted = adjust_options(base, change(SAOption::MinTemp, Direction::Positive), &calculate);
    assert_eq!(adjusted.function, base.function);
    assert_eq!(adjusted.initial_temperature, base.initial_temperature);
    assert_eq!(adjusted.annealing_schedule, base.annealing_schedule);
    assert_eq!(adjusted.max_iterations_sa, base.max_iterations_sa);
    assert_eq!(adjusted.max_iterations_ls, base.max_iterations_ls);
    assert_eq!(adjusted.initial_step_size_sa, base.initial_step_size_sa);
    assert_eq!(adjusted.initial_step_size_ls, base.initial_step_size_ls);
    assert_eq!(adjusted.n_best_sa, base.n_best_sa);
    assert_eq!(adjusted.n_best_ls, base.n_best_ls);
    assert_eq!(adjusted.ls_step_decrease, base.ls_step_decrease);
    assert_eq!(adjusted.seed, base.seed);
}

#[test]
fn counts_cannot_move_beyond_the_machine() {
    let base = SAOptions::default();
    let up = Direction::Positive;
    let down = Direction::Negative;
    assert!(can_adjust(base, change(SAOption::InitialTemperature, up)));
    assert!(!can_adjust(
        SAOptions { initial_temperature: 254, ..base },
        change(SAOption::InitialTemperature, up)
    ));
    assert!(!can_adjust(
        SAOptions { initial_temperature: 1, ..base },
        change(SAOption::InitialTemperature, down)
    ));
    assert!(!can_adjust(
        SAOptions { max_iterations_sa: u64::MAX - 499, ..base },
        change(SAOption::MaxIterationsSa, up)
    ));
    assert!(!can_adjust(
        SAOptions { max_iterations_sa: 499, ..base },
        change(SAOption::MaxIterationsSa, down)
    ));
    assert!(!can_adjust(
        SAOptions { max_iterations_ls: 999, ..base },
        change(SAOption::MaxIterationsLs, down)
    ));
    assert!(can_adjust(base, change(SAOption::MaxIterationsLs, down)));
    assert!(!can_adjust(SAOptions { n_best_sa: 0, ..base }, change(SAOption::BestNSa, down)));
    assert!(!can_adjust(SAOptions { n_best_ls: 0, ..base }, change(SAOption::BestNLs, down)));
    assert!(can_adjust(SAOptions { n_best_ls: 0, ..base }, change(SAOption::BestNLs, up)));
    assert!(can_adjust(base, change(SAOption::MinTemp, down)));
}

#[test]
fn runs_are_compared_by_how_far_they_miss_the_known_minimum() {
    // The raised run misses 21.1 by -0.9, the lowered one by -3.9.
    let raised_wins =
        compare_runs(SAOption::MinTemp, number(21.1), number(22.0), number(25.0), &calculate);
    assert_eq!(raised_wins.option, SAOption::MinTemp);
    assert_eq!(raised_wins.direction, Direction::Positive);
    assert_eq!(float(raised_wins.option_diff), (21.1f64 - 25.0).abs());

    let lowered_wins =
        compare_runs(SAOption::BestNSa, number(21.1), number(30.0), number(22.0), &calculate);
    assert_eq!(lowered_wins.direction, Direction::Negative);
    assert_eq!(float(lowered_wins.option_diff), (21.1f64 - 30.0).abs());

    let tie = compare_runs(SAOption::BestNSa, number(0.0), number(2.0), number(2.0), &calculate);
    assert_eq!(tie.direction, Direction::Negative);
    assert_eq!(float(tie.option_diff), 2.0);
}

#[test]
fn the_local_step_is_probed_with_a_smaller_and_a_larger_step() {
    let step = number(2.0);
    let probed =
        get_initial_step_change_ls(number(0.0), step, &problem(40), &sphere, &sample, &calculate)
            .unwrap();
    let lowered = run_sa(
        &problem(40),
        SAOptions { initial_step_size_ls: number(2.0 * 0.1), ..SAOptions::default() },
        &sphere,
        &sample,
        &calculate,
    )
    .unwrap();
    let raised = run_sa(
        &problem(40),
        SAOptions { initial_step_size_ls: number(2.0 + 0.1), ..SAOptions::default() },
        &sphere,
        &sample,
        &calculate,
    )
    .unwrap();
    let reference = float(BBOBFunctionType::Sphere.global_minimum());
    let raised_miss = reference - float(raised.value);
    let lowered_miss = reference - float(lowered.value);
    assert_eq!(probed.option, SAOption::InitialStepSizeLs);
    assert_eq!(
        probed.direction,
        if raised_miss > lowered_miss { Direction::Positive } else { Direction::Negative }
    );
    assert_eq!(float(probed.option_diff), raised_miss.abs().max(lowered_miss.abs()));
}

#[test]
fn runs_are_compared_by_how_far_they_fall_below_an_earlier_run() {
    // The raised run falls below 10 by 4, the lowered one by 1.
    let raised_wins =
        compare_runs_with_base(SAOption::MinTemp, number(10.0), number(6.0), number(9.0), &calculate);
    assert_eq!(raised_wins.option, SAOption::MinTemp);
    assert_eq!(raised_wins.direction, Direction::Positive);
    assert_eq!(float(raised_wins.option_diff), 4.0);

    // Both runs end above the earlier one; the lowered one by less.
    let lowered_wins =
        compare_runs_with_base(SAOption::BestNLs, number(10.0), number(13.0), number(11.0), &calculate);
    assert_eq!(lowered_wins.direction, Direction::Negative);
    assert_eq!(float(lowered_wins.option_diff), -1.0);
}

#[test]
fn parameters_are_perturbed_from_the_default_options() {
    let options = SAOptions {
        initial_temperature: 50,
        annealing_schedule: number(0.9),
        max_iterations_sa: 3000,
        max_iterations_ls: 700,
        initial_step_size_sa: number(0.5),
        initial_step_size_ls: number(3.0),
        min_temp: number(20.0),
        n_best_sa: 12,
        n_best_ls: 7,
        ..SAOptions::default()
    };
    let up = Direction::Positive;
    let down = Direction::Negative;
    let perturb = |option, direction| perturb_option(option, direction, options, &calculate);
    assert_eq!(perturb(SAOption::InitialTemperature, up).initial_temperature, 55);
    assert_eq!(perturb(SAOption::InitialTemperature, down).initial_temperature, 45);
    assert_eq!(float(perturb(SAOption::AnnealingSchedule, up).annealing_schedule), 0.9 + 0.02);
    assert_eq!(float(perturb(SAOption::AnnealingSchedule, down).annealing_schedule), 0.9 - 0.02);
    assert_eq!(perturb(SAOption::MaxIterationsSa, up).max_iterations_sa, 3500);
    assert_eq!(perturb(SAOption::MaxIterationsSa, down).max_iterations_sa, 2500);
    assert_eq!(perturb(SAOption::MaxIterationsLs, up).max_iterations_ls, 1200);
    assert_eq!(perturb(SAOption::MaxIterationsLs, down).max_iterations_ls, 200);
    assert_eq!(float(perturb(SAOption::InitialStepSizeSa, up).initial_step_size_sa), 0.5 + 0.1);
    assert_eq!(float(perturb(SAOption::InitialStepSizeSa, down).initial_step_size_sa), 0.5 * 0.1);
    assert_eq!(float(perturb(SAOption::InitialStepSizeLs, up).initial_step_size_ls), 3.0 + 0.1);
    assert_eq!(float(perturb(SAOption::InitialStepSizeLs, down).initial_step_size_ls), 3.0 * 0.1);
    assert_eq!(float(perturb(SAOption::MinTemp, up).min_temp), 20.0 + 10.0);
    assert_eq!(float(perturb(SAOption::MinTemp, down).min_temp), 20.0 - 10.0);
    assert_eq!(perturb(SAOption::BestNSa, up).n_best_sa, 13);
    assert_eq!(perturb(SAOption::BestNSa, down).n_best_sa, 11);
    assert_eq!(perturb(SAOption::BestNLs, up).n_best_ls, 8);
    assert_eq!(perturb(SAOption::BestNLs, down).n_best_ls, 6);

    // Every other parameter stands at its default.
    let perturbed = perturb(SAOption::BestNLs, up);
    let default = SAOptions::default();
    assert_eq!(perturbed.initial_temperature, default.initial_temperature);
    assert_eq!(perturbed.annealing_schedule, default.annealing_schedule);
    assert_eq!(perturbed.max_iterations_sa, default.max_iterations_sa);
    assert_eq!(perturbed.max_iterations_ls, default.max_iterations_ls);
    assert_eq!(perturbed.initial_step_size_sa, default.initial_step_size_sa);
    assert_eq!(perturbed.initial_step_size_ls, default.initial_step_size_ls);
    assert_eq!(perturbed.min_temp, default.min_temp);
    assert_eq!(perturbed.n_best_sa, default.n_best_sa);
}

#[test]
fn counts_cannot_be_perturbed_beyond_the_machine() {
    let base = SAOptions::default();
    let up = Direction::Positive;
    let down = Direction::Negative;
    assert!(can_probe(base));
    assert!(can_adjust_all(base));
    assert!(!can_perturb(
        SAOption::InitialTemperature,
        up,
        SAOptions { initial_temperature: 251, ..base }
    ));
    assert!(!can_perturb(
        SAOption::InitialTemperature,
        down,
        SAOptions { initial_temperature: 4, ..base }
    ));
    assert!(!can_perturb(SAOption::MaxIterationsSa, down, SAOptions { max_iterations_sa: 499, ..base }));
    assert!(!can_perturb(
        SAOption::MaxIterationsLs,
        up,
        SAOptions { max_iterations_ls: u64::MAX - 499, ..base }
    ));
    assert!(!can_perturb(SAOption::BestNSa, down, SAOptions { n_best_sa: 0, ..base }));
    assert!(!can_perturb(SAOption::BestNLs, up, SAOptions { n_best_ls: usize::MAX, ..base }));
    assert!(can_perturb(SAOption::MinTemp, down, base));
    assert!(!can_probe(SAOptions { initial_temperature: 4, ..base }));
    assert!(!can_probe(SAOptions { max_iterations_ls: 499, ..base }));
    assert!(!can_probe(SAOptions { n_best_sa: 0, ..base }));
    assert!(can_probe(SAOptions { max_iterations_ls: 500, ..base }));
    assert!(!can_adjust_all(SAOptions { max_iterations_ls: 999, ..base }));
    assert!(!can_adjust_all(SAOptions { initial_temperature: 1, ..base }));
    assert!(!can_adjust_all(SAOptions { initial_temperature: 254, ..base }));
    assert!(!can_adjust_all(SAOptions { n_best_ls: 0, ..base }));
}

#[test]
fn every_other_parameter_is_probed_against_the_earlier_run() {
    let base_value = number(3.0);
    let options = SAOptions::default();
    let probed = get_option_change(
        SAOption::MinTemp,
        base_value,
        options,
        &problem(40),
        &sphere,
        &sample,
        &calculate,
    )
    .unwrap();
    let raised = run_sa(
        &problem(40),
        SAOptions { min_temp: number(1.0 + 10.0), ..options },
        &sphere,
        &sample,
        &calculate,
    )
    .unwrap();
    let lowered = run_sa(
        &problem(40),
        SAOptions { min_temp: number(1.0 - 10.0), ..options },
        &sphere,
        &sample,
        &calculate,
    )
    .unwrap();
    let raised_fall = 3.0 - float(raised.value);
    let lowered_fall = 3.0 - float(lowered.value);
    assert_eq!(probed.option, SAOption::MinTemp);
    assert_eq!(
        probed.direction,
        if raised_fall > lowered_fall { Direction::Positive } else { Direction::Negative }
    );
    assert_eq!(float(probed.option_diff), raised_fall.max(lowered_fall));
    assert_eq!(
        get_min_temp_change(base_value, number(1.0), &problem(40), &sphere, &sample, &calculate)
            .unwrap(),
        probed
    );
}

#[test]
fn each_parameter_has_a_probe_of_its_own() {
    let base = number(3.0);
    let options = SAOptions::default();
    let generic = |option| {
        get_option_change(option, base, options, &problem(40), &sphere, &sample, &calculate).unwrap()
    };
    assert_eq!(
        get_initial_temp_change(base, 100, &problem(40), &sphere, &sample, &calculate).unwrap(),
        generic(SAOption::InitialTemperature)
    );
    assert_eq!(
        get_annealing_schedule_change(base, number(0.95), &problem(40), &sphere, &sample, &calculate)
            .unwrap(),
        generic(SAOption::AnnealingSchedule)
    );
    assert_eq!(
        get_max_iter_sa_change(base, 2000, &problem(40), &sphere, &sample, &calculate).unwrap(),
        generic(SAOption::MaxIterationsSa)
    );
    assert_eq!(
        get_max_iter_ls_change(base, 1000, &problem(40), &sphere, &sample, &calculate).unwrap(),
        generic(SAOption::MaxIterationsLs)
    );
    assert_eq!(
        get_initial_step_change_sa(base, number(0.05), &problem(40), &sphere, &sample, &calculate)
            .unwrap(),
        generic(SAOption::InitialStepSizeSa)
    );
    assert_eq!(
        get_best_n_sa_change(base, 39, &problem(40), &sphere, &sample, &calculate).unwrap(),
        generic(SAOption::BestNSa)
    );
    assert_eq!(
        get_best_n_ls_change(base, 39, &problem(40), &sphere, &sample, &calculate).unwrap(),
        generic(SAOption::BestNLs)
    );
}

#[test]
fn all_parameters_are_probed_and_ranked() {
    let options = SAOptions::default();
    let base = number(3.0);
    let changes =
        get_value_changes(base, options, &problem(40), &sphere, &sample, &calculate).unwrap();
    assert_eq!(changes.len(), 9);
    for option in SAOption::iterator() {
        let alone =
            get_option_change(option, base, options, &problem(40), &sphere, &sample, &calculate)
                .unwrap();
        let ranked: Vec<&OptionValue> =
            changes.iter().filter(|change| change.option == option).collect();
        assert_eq!(ranked.len(), 1);
        assert_eq!(*ranked[0], alone);
    }
    for pair in changes.windows(2) {
        let (first, second) = (float(pair[0].option_diff), float(pair[1].option_diff));
        assert!(
            first > second || (first == second && pair[0].option.ordinal() < pair[1].option.ordinal())
        );
    }
}

#[test]
fn a_round_of_the_probe_moves_the_most_responsive_parameter() {
    let options = SAOptions { function: BBOBFunctionType::Katsuura, ..SAOptions::default() };
    let tuned = get_optimal_params(&problem(40), options, &sphere, &sample, &calculate).unwrap();
    let base = run_sa(&problem(40), options, &sphere, &sample, &calculate).unwrap();
    let changes =
        get_value_changes(base.value, options, &problem(40), &sphere, &sample, &calculate).unwrap();
    let expected = adjust_options(options, changes[0], &calculate);
    assert_eq!(tuned.function, BBOBFunctionType::Sphere);
    assert_eq!(tuned.initial_temperature, expected.initial_temperature);
    assert_eq!(tuned.annealing_schedule, expected.annealing_schedule);
    assert_eq!(tuned.max_iterations_sa, expected.max_iterations_sa);
    assert_eq!(tuned.max_iterations_ls, expected.max_iterations_ls);
    assert_eq!(tuned.initial_step_size_sa, expected.initial_step_size_sa);
    assert_eq!(tuned.initial_step_size_ls, expected.initial_step_size_ls);
    assert_eq!(tuned.min_temp, expected.min_temp);
    assert_eq!(tuned.n_best_sa, expected.n_best_sa);
    assert_eq!(tuned.n_best_ls, expected.n_best_ls);
    assert_eq!(tuned.seed, options.seed);
}

#[test]
fn the_probe_needs_a_problem_with_enough_dimensions() {
    let options = SAOptions::default();
    assert_eq!(
        get_optimal_params(&problem(39), options, &sphere, &sample, &calculate).unwrap_err(),
        SAError::TooManyDimensions
    );
    assert_eq!(
        get_value_changes(number(0.0), options, &problem(39), &sphere, &sample, &calculate)
            .unwrap_err(),
        SAError::TooManyDimensions
    );
    assert_eq!(
        get_initial_step_change_ls(number(0.0), number(2.0), &problem(38), &sphere, &sample, &calculate)
            .unwrap_err(),
        SAError::TooManyDimensions
    );
    assert_eq!(
        get_best_n_sa_change(number(0.0), 39, &problem(39), &sphere, &sample, &calculate)
            .unwrap_err(),
        SAError::TooManyDimensions
    );
    assert!(get_best_n_sa_change(number(0.0), 38, &problem(39), &sphere, &sample, &calculate).is_ok());
    assert!(
        get_initial_step_change_ls(number(0.0), number(2.0), &problem(39), &sphere, &sample, &calculate)
            .is_ok()
    );
}

#[test]
fn all_problems_are_run_in_index_order() {
    let args = CLIFireflyOptimizationArgs { mode: CLIFireflyOptimizationMode::AllProblems };
    let problems = problems_to_run(args).unwrap();
    assert_eq!(problems.len(), 24);
    for (place, function) in problems.iter().enumerate() {
        assert_eq!(function.index(), place + 1);
    }
}

#[test]
fn one_problem_is_run_by_its_number() {
    for number in [1usize, 13, 24] {
        let args = CLIFireflyOptimizationArgs {
            mode: CLIFireflyOptimizationMode::OneProblem(CLIRunOneArgs { problem_number: number }),
        };
        let problems = problems_to_run(args).unwrap();
        assert_eq!(problems.len(), 1);
        assert_eq!(problems[0].index(), number);
    }
}

#[test]
fn a_problem_number_out_of_range_is_refused() {
    for number in [0usize, 25, 100] {
        let args = CLIFireflyOptimizationArgs {
            mode: CLIFireflyOptimizationMode::OneProblem(CLIRunOneArgs { problem_number: number }),
        };
        let error = problems_to_run(args).unwrap_err();
        assert_eq!(error, CommandError::InvalidProblemIndex);
        assert_eq!(error.message(), "Invalid problem index (not in 1-24 range).");
    }
}
