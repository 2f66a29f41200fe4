use bbob_optimizations::bbob::functions::{all_bbob_functions, BBOBFunctionType};
use bbob_optimizations::bbob::names::{all_bbob_function_names, BBOBFunctionName};

#[test]
fn function_index_round_trip() {
    for index in 1..=24usize {
        let function = BBOBFunctionType::from_function_index(index).unwrap();
        assert_eq!(function.index(), index);
    }
}

#[test]
fn function_index_out_of_range_is_none() {
    assert_eq!(BBOBFunctionType::from_function_index(0), None);
    assert_eq!(BBOBFunctionType::from_function_index(25), None);
    assert_eq!(BBOBFunctionType::from_function_index(usize::MAX), None);
}

#[test]
fn function_names_are_variant_names() {
    assert_eq!(BBOBFunctionType::Sphere.name(), "Sphere");
    assert_eq!(BBOBFunctionType::RosenbrockFunctionRotated.name(), "RosenbrockFunctionRotated");
    assert_eq!(
        BBOBFunctionType::CompositeGriewankRosenbrockF8F2.name(),
        "CompositeGriewankRosenbrockF8F2"
    );
    assert_eq!(BBOBFunctionType::LunacekBiRastrigin.name(), "LunacekBiRastrigin");
}

#[test]
fn global_minima_are_the_tabulated_values() {
    let expected: [f64; 24] = [
        21.1000, 26.9100, 311.6000, 311.6000, -48.4700, -91.3600, 32.4900, 71.6000, -356.7000,
        51.0300, -96.6500, 553.3900, 9.8800, 405.4700, 64.2500, -43.2800, 227.5100, 227.5100,
        73.0600, -123.8100, -44.4200, 222.1000, -1000.0000, -1.3300,
    ];
    let all = all_bbob_functions();
    assert_eq!(all.len(), 24);
    for (function, value) in all.iter().zip(expected.iter()) {
        assert_eq!(f64::from_bits(function.global_minimum().to_bits()), *value);
    }
}

#[test]
fn all_functions_are_in_index_order() {
    let all = all_bbob_functions();
    for (position, function) in all.iter().enumerate() {
        assert_eq!(function.index(), position + 1);
    }
}

#[test]
fn name_index_round_trip() {
    for index in 1..=24usize {
        let function = BBOBFunctionName::from_function_index(index).unwrap();
        assert_eq!(function.to_function_index(), index);
    }
    assert_eq!(BBOBFunctionName::from_function_index(0), None);
    assert_eq!(BBOBFunctionName::from_function_index(25), None);
}

#[test]
fn names_agree_between_the_two_enums() {
    let functions = all_bbob_functions();
    let names = all_bbob_function_names();
    assert_eq!(names.len(), 24);
    for (function, name) in functions.iter().zip(names.iter()) {
        assert_eq!(function.name(), name.to_function_name());
        assert_eq!(function.index(), name.to_function_index());
    }
    assert_eq!(BBOBFunctionName::Katsuura.to_function_name(), "Katsuura");
}
