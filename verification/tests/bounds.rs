use bbob_optimizations::bbob::functions::BBOBFunctionType;
use bbob_optimizations::bbob::problem::{BBOBProblem, Bounds, ProblemError, PROBLEM_DIMENSIONS};
use bbob_optimizations::scalar::Scalar;

fn number(x: f64) -> Scalar {
    Scalar::from_bits(x.to_bits())
}

fn float(s: Scalar) -> f64 {
    f64::from_bits(s.to_bits())
}

fn search_interval() -> Bounds {
    Bounds::new(number(-5.0), number(5.0))
}

#[test]
fn bounds_keep_their_ends() {
    let bounds = search_interval();
    assert_eq!(float(bounds.lower_bound()), -5.0);
    assert_eq!(float(bounds.upper_bound()), 5.0);
}

#[test]
fn checked_bounds_refuse_ends_out_of_order() {
    assert!(Bounds::checked(number(-5.0), number(5.0)).is_some());
    assert!(Bounds::checked(number(2.0), number(2.0)).is_some());
    assert!(Bounds::checked(number(5.0), number(-5.0)).is_none());
    assert!(Bounds::checked(number(f64::NAN), number(5.0)).is_none());
    assert!(Bounds::checked(number(-5.0), number(f64::NAN)).is_none());
}

#[test]
fn contains_includes_both_ends() {
    let bounds = search_interval();
    assert!(bounds.contains(number(-5.0)));
    assert!(bounds.contains(number(5.0)));
    assert!(bounds.contains(number(0.0)));
    assert!(bounds.contains(number(-0.0)));
    assert!(!bounds.contains(number(5.000000000000001)));
    assert!(!bounds.contains(number(-5.000000000000001)));
    assert!(!bounds.contains(number(f64::INFINITY)));
    assert!(!bounds.contains(number(f64::NAN)));
}

#[test]
fn clamp_brings_numbers_to_the_nearer_end() {
    let bounds = search_interval();
    assert_eq!(float(bounds.clamp(number(7.25))), 5.0);
    assert_eq!(float(bounds.clamp(number(-7.25))), -5.0);
    assert_eq!(float(bounds.clamp(number(1.5))), 1.5);
    assert_eq!(float(bounds.clamp(number(5.0))), 5.0);
    assert_eq!(float(bounds.clamp(number(f64::INFINITY))), 5.0);
    assert_eq!(float(bounds.clamp(number(f64::NEG_INFINITY))), -5.0);
    assert!(bounds.clamp(number(f64::NAN)).is_nan());
}

#[test]
fn clamp_all_clamps_every_coordinate() {
    let bounds = search_interval();
    let clamped = bounds.clamp_all(vec![number(-9.0), number(0.25), number(9.0)]);
    let floats: Vec<f64> = clamped.iter().map(|c| float(*c)).collect();
    assert_eq!(floats, vec![-5.0, 0.25, 5.0]);
    assert!(bounds.contains_position(&clamped));
}

#[test]
fn contains_position_wants_every_coordinate_inside() {
    let bounds = search_interval();
    assert!(bounds.contains_position(&vec![]));
    assert!(bounds.contains_position(&vec![number(1.0), number(-5.0), number(5.0)]));
    assert!(!bounds.contains_position(&vec![number(1.0), number(6.0)]));
    assert!(!bounds.contains_position(&vec![number(f64::NAN)]));
}

#[test]
fn a_problem_needs_forty_dimensions() {
    let result = BBOBProblem::from_problem_and_name(
        39,
        1,
        BBOBFunctionType::Sphere,
        search_interval(),
    );
    assert_eq!(result.unwrap_err(), ProblemError::WrongDimensions);
    let both_wrong = BBOBProblem::from_problem_and_name(
        2,
        3,
        BBOBFunctionType::Sphere,
        search_interval(),
    );
    assert_eq!(both_wrong.unwrap_err(), ProblemError::WrongDimensions);
}

#[test]
fn a_problem_needs_a_single_objective() {
    let result = BBOBProblem::from_problem_and_name(
        40,
        2,
        BBOBFunctionType::Sphere,
        search_interval(),
    );
    assert_eq!(result.unwrap_err(), ProblemError::MultipleObjectives);
}

#[test]
fn a_problem_of_forty_dimensions_and_one_objective_is_accepted() {
    let problem = BBOBProblem::from_problem_and_name(
        PROBLEM_DIMENSIONS,
        1,
        BBOBFunctionType::Katsuura,
        search_interval(),
    )
    .unwrap();
    assert_eq!(problem.input_dimensions, 40);
    assert_eq!(problem.name, BBOBFunctionType::Katsuura);
    assert_eq!(float(problem.bounds().lower_bound()), -5.0);
    assert_eq!(float(problem.bounds().upper_bound()), 5.0);
}

#[test]
fn problem_errors_say_what_is_wrong() {
    assert_eq!(ProblemError::WrongDimensions.message(), "Problem doesn't have 40 dimensions!");
    assert_eq!(
        ProblemError::MultipleObjectives.message(),
        "Problem has more than one objective!"
    );
}
