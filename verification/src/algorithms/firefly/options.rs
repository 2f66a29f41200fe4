//! The parameters of a firefly run and the variants of them that a full
//! optimization strings together.

use vstd::prelude::*;
use crate::algorithms::common::arithmetic::{
    calculated,
    calculates_all,
    sampled,
    samples_all,
    Expression,
};
use crate::algorithms::common::rng::{
    lemma_draw_after_adds,
    one,
    UniformF64BoundedRandomGenerator,
};
use crate::bbob::functions::BBOBFunctionType;
use crate::scalar::Scalar;

verus! {

/// Everything that a full optimization is told: the seed that fixes all its
/// random streams, the parameters of each restart, and those of each
/// refinement run that follows, if any.
#[derive(Debug, Clone)]
pub struct FullFireflyOptions {
    /// The seed from which the seeds of all random streams are drawn.
    pub random_generator_seed: [u8; 16],
    /// The parameters of each restart, in the order in which they run.
    pub per_restart_options: Vec<FireflyRunOptions>,
    /// The parameters of each refinement run, which starts at the best point
    /// known by then.
    pub post_process_best_options: Option<Vec<FireflyRunOptions>>,
}

/// The parameters of one run of the swarm.
#[derive(Debug, Clone, Copy, PartialEq, Eq, Structural)]
pub struct FireflyRunOptions {
    /// How many fireflies the swarm has. The number stays the same throughout a run.
    pub swarm_size: usize,
    /// The most iterations that a run performs.
    pub maximum_iterations: usize,
    /// After how many iterations in a row without a better best solution a
    /// run is given up as stuck.
    pub consider_stuck_after_n_iterations: usize,
    /// How strongly a firefly is drawn to a brighter one at distance zero,
    /// usually between 0 and 1.
    pub attractiveness_coefficient: Scalar,
    /// How fast the attraction falls off with the distance, usually between
    /// 0 and 1.
    pub light_absorption_coefficient: Scalar,
    /// The jitter coefficient that a run starts with.
    pub movement_jitter_starting_coefficient: Scalar,
    /// By what the jitter coefficient is multiplied after an iteration of a
    /// run that still makes progress; at most 1.
    pub movement_jitter_cooling_factor: Scalar,
    /// After how many iterations in a row without a better best solution the
    /// jitter coefficient is heated instead of cooled.
    pub movement_jitter_min_stuck_runs_to_reheat: usize,
    /// By what the jitter coefficient is multiplied after an iteration of a
    /// run that is stuck; at least 1.
    pub movement_jitter_heating_factor: Scalar,
    /// Below what cooling never takes the jitter coefficient.
    pub movement_jitter_minimum_coefficient: Scalar,
    /// Above what heating never takes the jitter coefficient.
    pub movement_jitter_maximum_coefficient: Scalar,
}

impl FireflyRunOptions {
    /// The parameters that are used where none are given.
    pub open spec fn spec_default() -> FireflyRunOptions {
        FireflyRunOptions {
            swarm_size: 150,
            maximum_iterations: 2000,
            consider_stuck_after_n_iterations: 500,
            attractiveness_coefficient: Scalar { bits: 0x3FF0_0000_0000_0000 },
            light_absorption_coefficient: Scalar { bits: 0x3F99_9999_9999_999A },
            movement_jitter_starting_coefficient: Scalar { bits: 0x3F84_7AE1_47AE_147B },
            movement_jitter_cooling_factor: Scalar { bits: 0x3FEF_AE14_7AE1_47AE },
            movement_jitter_min_stuck_runs_to_reheat: 200,
            movement_jitter_heating_factor: Scalar { bits: 0x3FF1_9999_9999_999A },
            movement_jitter_minimum_coefficient: Scalar { bits: 0x3F74_7AE1_47AE_147B },
            movement_jitter_maximum_coefficient: Scalar { bits: 0x3FE0_0000_0000_0000 },
        }
    }

    /// The same parameters, but with `swarm_size` for `swarm_size`.
    pub fn with_swarm_size(self, swarm_size: usize) -> (r: Self)
        ensures
            r == (FireflyRunOptions { swarm_size, ..self }),
    {
        Self { swarm_size, ..self }
    }

    /// The same parameters, but with `maximum_iterations` for `maximum_iterations`.
    pub fn with_maximum_iterations(self, maximum_iterations: usize) -> (r: Self)
        ensures
            r == (FireflyRunOptions { maximum_iterations, ..self }),
    {
        Self { maximum_iterations, ..self }
    }

    /// The same parameters, but with `consider_stuck_after_runs` for `consider_stuck_after_n_iterations`.
    pub fn with_consider_stuck_after_runs(self, consider_stuck_after_runs: usize) -> (r: Self)
        ensures
            r == (FireflyRunOptions { consider_stuck_after_n_iterations: consider_stuck_after_runs, ..self }),
    {
        Self { consider_stuck_after_n_iterations: consider_stuck_after_runs, ..self }
    }

    /// The same parameters, but with `attractiveness_coefficient` for `attractiveness_coefficient`.
    pub fn with_attractiveness_coefficient(self, attractiveness_coefficient: Scalar) -> (r: Self)
        ensures
            r == (FireflyRunOptions { attractiveness_coefficient, ..self }),
    {
        Self { attractiveness_coefficient, ..self }
    }

    /// The same parameters, but with `light_absorption_coefficient` for `light_absorption_coefficient`.
    pub fn with_light_absorption_coefficient(self, light_absorption_coefficient: Scalar) -> (r: Self)
        ensures
            r == (FireflyRunOptions { light_absorption_coefficient, ..self }),
    {
        Self { light_absorption_coefficient, ..self }
    }

    /// The same parameters, but with `movement_jitter_starting_coefficient` for `movement_jitter_starting_coefficient`.
    pub fn with_movement_jitter_starting_coefficient(self, movement_jitter_starting_coefficient: Scalar) -> (r: Self)
        ensures
            r == (FireflyRunOptions { movement_jitter_starting_coefficient, ..self }),
    {
        Self { movement_jitter_starting_coefficient, ..self }
    }

    /// The same parameters, but with `movement_jitter_cooling_factor` for `movement_jitter_cooling_factor`.
    pub fn with_movement_jitter_cooling_factor(self, movement_jitter_cooling_factor: Scalar) -> (r: Self)
        ensures
            r == (FireflyRunOptions { movement_jitter_cooling_factor, ..self }),
    {
        Self { movement_jitter_cooling_factor, ..self }
    }

    /// The same parameters, but with `movement_jitter_min_stuck_runs_to_reheat` for `movement_jitter_min_stuck_runs_to_reheat`.
    pub fn with_movement_jitter_min_stuck_runs_to_reheat(self, movement_jitter_min_stuck_runs_to_reheat: usize) -> (r: Self)
        ensures
            r == (FireflyRunOptions { movement_jitter_min_stuck_runs_to_reheat, ..self }),
    {
        Self { movement_jitter_min_stuck_runs_to_reheat, ..self }
    }

    /// The same parameters, but with `movement_jitter_heating_factor` for `movement_jitter_heating_factor`.
    pub fn with_movement_jitter_heating_factor(self, movement_jitter_heating_factor: Scalar) -> (r: Self)
        ensures
            r == (FireflyRunOptions { movement_jitter_heating_factor, ..self }),
    {
        Self { movement_jitter_heating_factor, ..self }
    }

    /// The same parameters, but with `movement_jitter_minimum_coefficient` for `movement_jitter_minimum_coefficient`.
    pub fn with_movement_jitter_minimum_coefficient(self, movement_jitter_minimum_coefficient: Scalar) -> (r: Self)
        ensures
            r == (FireflyRunOptions { movement_jitter_minimum_coefficient, ..self }),
    {
        Self { movement_jitter_minimum_coefficient, ..self }
    }

    /// The same parameters, but with `movement_jitter_maximum_coefficient` for `movement_jitter_maximum_coefficient`.
    pub fn with_movement_jitter_maximum_coefficient(self, movement_jitter_maximum_coefficient: Scalar) -> (r: Self)
        ensures
            r == (FireflyRunOptions { movement_jitter_maximum_coefficient, ..self }),
    {
        Self { movement_jitter_maximum_coefficient, ..self }
    }

}

impl Default for FireflyRunOptions {
    fn default() -> (r: FireflyRunOptions)
        ensures
            r == FireflyRunOptions::spec_default(),
    {
        Self {
            swarm_size: 150,
            maximum_iterations: 2000,
            consider_stuck_after_n_iterations: 500,
            // 1
            attractiveness_coefficient: Scalar { bits: 0x3FF0_0000_0000_0000 },
            // 0.025
            light_absorption_coefficient: Scalar { bits: 0x3F99_9999_9999_999A },
            // 0.01
            movement_jitter_starting_coefficient: Scalar { bits: 0x3F84_7AE1_47AE_147B },
            // 0.99
            movement_jitter_cooling_factor: Scalar { bits: 0x3FEF_AE14_7AE1_47AE },
            movement_jitter_min_stuck_runs_to_reheat: 200,
            // 1.1
            movement_jitter_heating_factor: Scalar { bits: 0x3FF1_9999_9999_999A },
            // 0.005
            movement_jitter_minimum_coefficient: Scalar { bits: 0x3F74_7AE1_47AE_147B },
            // 0.5
            movement_jitter_maximum_coefficient: Scalar { bits: 0x3FE0_0000_0000_0000 },
        }
    }
}

/// The variant with extremely high jitter: it heats up quickly and far when
/// stuck, cools down very slowly and is very patient.
pub open spec fn extremely_high_jitter(run_options: FireflyRunOptions) -> FireflyRunOptions {
    FireflyRunOptions {
        consider_stuck_after_n_iterations: 2000,
        movement_jitter_starting_coefficient: Scalar { bits: 0x3FD3_3333_3333_3333 },
        movement_jitter_cooling_factor: Scalar { bits: 0x3FEF_FF2E_48E8_A71E },
        movement_jitter_min_stuck_runs_to_reheat: 120,
        movement_jitter_heating_factor: Scalar { bits: 0x3FF0_CCCC_CCCC_CCCD },
        movement_jitter_minimum_coefficient: Scalar { bits: 0x3FAE_B851_EB85_1EB8 },
        movement_jitter_maximum_coefficient: Scalar { bits: 0x4020_0000_0000_0000 },
        ..run_options
    }
}

/// The variant with high jitter: it heats up rather quickly over a medium
/// range and cools down slowly.
pub open spec fn high_jitter(run_options: FireflyRunOptions) -> FireflyRunOptions {
    FireflyRunOptions {
        consider_stuck_after_n_iterations: 1000,
        movement_jitter_starting_coefficient: Scalar { bits: 0x3FC7_0A3D_70A3_D70A },
        movement_jitter_cooling_factor: Scalar { bits: 0x3FEF_F7CE_D916_872B },
        movement_jitter_min_stuck_runs_to_reheat: 250,
        movement_jitter_heating_factor: Scalar { bits: 0x3FF0_28F5_C28F_5C29 },
        movement_jitter_minimum_coefficient: Scalar { bits: 0x3FA9_9999_9999_999A },
        movement_jitter_maximum_coefficient: Scalar { bits: 0x3FE3_3333_3333_3333 },
        ..run_options
    }
}

/// The variant with medium jitter: it heats up slowly and not far, and cools
/// down slowly.
pub open spec fn medium_jitter(run_options: FireflyRunOptions) -> FireflyRunOptions {
    FireflyRunOptions {
        consider_stuck_after_n_iterations: 1000,
        movement_jitter_starting_coefficient: Scalar { bits: 0x3FB9_9999_9999_999A },
        movement_jitter_cooling_factor: Scalar { bits: 0x3FEF_FBE7_6C8B_4396 },
        movement_jitter_min_stuck_runs_to_reheat: 400,
        movement_jitter_heating_factor: Scalar { bits: 0x3FF0_51EB_851E_B852 },
        movement_jitter_minimum_coefficient: Scalar { bits: 0x3F94_7AE1_47AE_147B },
        movement_jitter_maximum_coefficient: Scalar { bits: 0x3FC3_3333_3333_3333 },
        ..run_options
    }
}

/// The variant with low jitter: it barely heats up, cools down rather
/// quickly, and runs a smaller swarm for ten times as many iterations.
pub open spec fn low_jitter(run_options: FireflyRunOptions) -> FireflyRunOptions {
    FireflyRunOptions {
        swarm_size: 50,
        maximum_iterations: (run_options.maximum_iterations * 10) as usize,
        consider_stuck_after_n_iterations: 2000,
        movement_jitter_starting_coefficient: Scalar { bits: 0x3F74_7AE1_47AE_147B },
        movement_jitter_cooling_factor: Scalar { bits: 0x3FEF_DF3B_645A_1CAC },
        movement_jitter_min_stuck_runs_to_reheat: 800,
        movement_jitter_heating_factor: Scalar { bits: 0x3FF0_0068_DB8B_AC71 },
        movement_jitter_minimum_coefficient: Scalar { bits: 0x3F3A_36E2_EB1C_432D },
        movement_jitter_maximum_coefficient: Scalar { bits: 0x3F84_7AE1_47AE_147B },
        ..run_options
    }
}

/// The given parameters followed by four variants of them that differ in how
/// much jitter the fireflies move with: extremely high, high, medium and low.
pub fn generate_multiple_jitter_variants(run_options: FireflyRunOptions) -> (r: Vec<
    FireflyRunOptions,
>)
    requires
        run_options.maximum_iterations * 10 <= usize::MAX,
    ensures
        r@ == seq![
            run_options,
            extremely_high_jitter(run_options),
            high_jitter(run_options),
            medium_jitter(run_options),
            low_jitter(run_options),
        ],
{
    let mut variants: Vec<FireflyRunOptions> = Vec::with_capacity(5);
    variants.push(run_options);
    variants.push(
        FireflyRunOptions {
            consider_stuck_after_n_iterations: 2000,
            // 0.3
            movement_jitter_starting_coefficient: Scalar { bits: 0x3FD3_3333_3333_3333 },
            // 0.9999
            movement_jitter_cooling_factor: Scalar { bits: 0x3FEF_FF2E_48E8_A71E },
            movement_jitter_min_stuck_runs_to_reheat: 120,
            // 1.05
            movement_jitter_heating_factor: Scalar { bits: 0x3FF0_CCCC_CCCC_CCCD },
            // 0.06
            movement_jitter_minimum_coefficient: Scalar { bits: 0x3FAE_B851_EB85_1EB8 },
            // 8.0
            movement_jitter_maximum_coefficient: Scalar { bits: 0x4020_0000_0000_0000 },
            ..run_options
        },
    );
    variants.push(
        FireflyRunOptions {
            consider_stuck_after_n_iterations: 1000,
            // 0.18
            movement_jitter_starting_coefficient: Scalar { bits: 0x3FC7_0A3D_70A3_D70A },
            // 0.999
            movement_jitter_cooling_factor: Scalar { bits: 0x3FEF_F7CE_D916_872B },
            movement_jitter_min_stuck_runs_to_reheat: 250,
            // 1.01
            movement_jitter_heating_factor: Scalar { bits: 0x3FF0_28F5_C28F_5C29 },
            // 0.05
            movement_jitter_minimum_coefficient: Scalar { bits: 0x3FA9_9999_9999_999A },
            // 0.6
            movement_jitter_maximum_coefficient: Scalar { bits: 0x3FE3_3333_3333_3333 },
            ..run_options
        },
    );
    variants.push(
        FireflyRunOptions {
            consider_stuck_after_n_iterations: 1000,
            // 0.1
            movement_jitter_starting_coefficient: Scalar { bits: 0x3FB9_9999_9999_999A },
            // 0.9995
            movement_jitter_cooling_factor: Scalar { bits: 0x3FEF_FBE7_6C8B_4396 },
            movement_jitter_min_stuck_runs_to_reheat: 400,
            // 1.02
            movement_jitter_heating_factor: Scalar { bits: 0x3FF0_51EB_851E_B852 },
            // 0.02
            movement_jitter_minimum_coefficient: Scalar { bits: 0x3F94_7AE1_47AE_147B },
            // 0.15
            movement_jitter_maximum_coefficient: Scalar { bits: 0x3FC3_3333_3333_3333 },
            ..run_options
        },
    );
    variants.push(
        FireflyRunOptions {
            swarm_size: 50,
            maximum_iterations: run_options.maximum_iterations * 10,
            consider_stuck_after_n_iterations: 2000,
            // 0.005
            movement_jitter_starting_coefficient: Scalar { bits: 0x3F74_7AE1_47AE_147B },
            // 0.996
            movement_jitter_cooling_factor: Scalar { bits: 0x3FEF_DF3B_645A_1CAC },
            movement_jitter_min_stuck_runs_to_reheat: 800,
            // 1.0001
            movement_jitter_heating_factor: Scalar { bits: 0x3FF0_0068_DB8B_AC71 },
            // 0.0004
            movement_jitter_minimum_coefficient: Scalar { bits: 0x3F3A_36E2_EB1C_432D },
            // 0.01
            movement_jitter_maximum_coefficient: Scalar { bits: 0x3F84_7AE1_47AE_147B },
            ..run_options
        },
    );
    proof {
        assert(variants@ =~= seq![
            run_options,
            extremely_high_jitter(run_options),
            high_jitter(run_options),
            medium_jitter(run_options),
            low_jitter(run_options),
        ]);
    }
    variants
}

/// The variants of [`generate_multiple_jitter_variants`], or `None` when ten
/// times the number of iterations does not fit the machine.
pub fn checked_jitter_variants(run_options: FireflyRunOptions) -> (r: Option<Vec<FireflyRunOptions>>)
    ensures
        r is Some <==> run_options.maximum_iterations * 10 <= usize::MAX,
        r is Some ==> r.unwrap()@ == seq![
            run_options,
            extremely_high_jitter(run_options),
            high_jitter(run_options),
            medium_jitter(run_options),
            low_jitter(run_options),
        ],
{
    if run_options.maximum_iterations <= usize::MAX / 10 {
        Some(generate_multiple_jitter_variants(run_options))
    } else {
        None
    }
}

/// The seed of most functions.
pub const DEFAULT_RNG_SEED: [u8; 16] = [
    133, 66, 79, 177, 132, 191, 158, 217, 101, 170, 134, 109, 79, 56, 2, 31,
];

/// A seed that no function uses at present.
pub const RNG_SEED_2: [u8; 16] = [
    68, 0, 111, 49, 202, 129, 188, 17, 242, 111, 237, 175, 192, 39, 186, 157,
];

/// The seed of the Lunacek bi-Rastrigin function.
pub const RNG_SEED_3: [u8; 16] = [
    91, 177, 196, 74, 108, 96, 138, 241, 113, 145, 26, 249, 86, 125, 133, 226,
];

/// The seed of the stream from which mutated duplicates are drawn.
pub const PREPROCESSING_RNG_SEED: [u8; 16] = [
    54, 243, 8, 243, 25, 11, 26, 252, 39, 239, 143, 200, 60, 100, 193, 63,
];

/// How many numbers a mutated duplicate of a run takes from the stream: one
/// for each of its parameters.
pub const DRAWS_PER_RUN: usize = 11;

/// The number 0.05: by what share a mutated parameter differs from the
/// parameter at most, unless another share is given.
pub open spec fn default_mutation_range() -> Scalar {
    Scalar { bits: 0x3FA9_9999_9999_999A }
}

/// The number 0.09.
pub open spec fn wide_mutation_range() -> Scalar {
    Scalar { bits: 0x3FB7_0A3D_70A3_D70A }
}

/// Whether `scaled` is what a count `value` may become when it is mutated
/// with draw number `draw` of the stream of `seed` over `[low, high]`: the
/// count as a number, times the draw, rounded to the nearest count.
pub open spec fn scaled_count<
    S: Fn(&[u8; 16], u128, Scalar, Scalar) -> Scalar,
    C: Fn(Expression) -> Scalar,
>(
    sample: &S,
    calculate: &C,
    seed: Seq<u8>,
    draw: u128,
    low: Scalar,
    high: Scalar,
    value: usize,
    scaled: usize,
) -> bool {
    exists|coefficient: Scalar, number: Scalar, product: Scalar|
        {
            &&& #[trigger] sampled(sample, seed, draw, low, high, coefficient)
            &&& #[trigger] calculated(calculate, Expression::Count(value), number)
            &&& #[trigger] calculated(calculate, Expression::Product(number, coefficient), product)
            &&& scaled == product.round_to_count()
        }
}

/// Whether `scaled` is what a number `value` may become when it is mutated
/// with draw number `draw` of the stream of `seed` over `[low, high]`: the
/// draw times the number.
pub open spec fn scaled_number<
    S: Fn(&[u8; 16], u128, Scalar, Scalar) -> Scalar,
    C: Fn(Expression) -> Scalar,
>(
    sample: &S,
    calculate: &C,
    seed: Seq<u8>,
    draw: u128,
    low: Scalar,
    high: Scalar,
    value: Scalar,
    scaled: Scalar,
) -> bool {
    exists|coefficient: Scalar|
        {
            &&& #[trigger] sampled(sample, seed, draw, low, high, coefficient)
            &&& calculated(calculate, Expression::Product(coefficient, value), scaled)
        }
}

/// The draw number that follows `count` draws after `first`.
pub open spec fn draw(first: u128, count: int) -> u128 {
    UniformF64BoundedRandomGenerator::draw_after(first, count)
}

/// Whether `mutated` is what a mutated duplicate of `run` may be when its
/// parameters take, in the order in which they are declared, the draws of the
/// stream of `seed` over `[low, high]` from draw number `first` on: every
/// parameter is scaled by its draw, but the cooling factor is at most 1 and
/// the heating factor at least 1.
pub open spec fn mutation_of<
    S: Fn(&[u8; 16], u128, Scalar, Scalar) -> Scalar,
    C: Fn(Expression) -> Scalar,
>(
    sample: &S,
    calculate: &C,
    seed: Seq<u8>,
    low: Scalar,
    high: Scalar,
    first: u128,
    run: FireflyRunOptions,
    mutated: FireflyRunOptions,
) -> bool {
    &&& scaled_count(
        sample,
        calculate,
        seed,
        draw(first, 0),
        low,
        high,
        run.swarm_size,
        mutated.swarm_size,
    )
    &&& scaled_count(
        sample,
        calculate,
        seed,
        draw(first, 1),
        low,
        high,
        run.maximum_iterations,
        mutated.maximum_iterations,
    )
    &&& scaled_count(
        sample,
        calculate,
        seed,
        draw(first, 2),
        low,
        high,
        run.consider_stuck_after_n_iterations,
        mutated.consider_stuck_after_n_iterations,
    )
    &&& scaled_number(
        sample,
        calculate,
        seed,
        draw(first, 3),
        low,
        high,
        run.attractiveness_coefficient,
        mutated.attractiveness_coefficient,
    )
    &&& scaled_number(
        sample,
        calculate,
        seed,
        draw(first, 4),
        low,
        high,
        run.light_absorption_coefficient,
        mutated.light_absorption_coefficient,
    )
    &&& scaled_number(
        sample,
        calculate,
        seed,
        draw(first, 5),
        low,
        high,
        run.movement_jitter_starting_coefficient,
        mutated.movement_jitter_starting_coefficient,
    )
    &&& exists|cooling: Scalar| #[trigger]
        scaled_number(
            sample,
            calculate,
            seed,
            draw(first, 6),
            low,
            high,
            run.movement_jitter_cooling_factor,
            cooling,
        ) && mutated.movement_jitter_cooling_factor == cooling.min(one())
    &&& scaled_count(
        sample,
        calculate,
        seed,
        draw(first, 7),
        low,
        high,
        run.movement_jitter_min_stuck_runs_to_reheat,
        mutated.movement_jitter_min_stuck_runs_to_reheat,
    )
    &&& exists|heating: Scalar| #[trigger]
        scaled_number(
            sample,
            calculate,
            seed,
            draw(first, 8),
            low,
            high,
            run.movement_jitter_heating_factor,
            heating,
        ) && mutated.movement_jitter_heating_factor == heating.max(one())
    &&& scaled_number(
        sample,
        calculate,
        seed,
        draw(first, 9),
        low,
        high,
        run.movement_jitter_minimum_coefficient,
        mutated.movement_jitter_minimum_coefficient,
    )
    &&& scaled_number(
        sample,
        calculate,
        seed,
        draw(first, 10),
        low,
        high,
        run.movement_jitter_maximum_coefficient,
        mutated.movement_jitter_maximum_coefficient,
    )
}

/// Whether `all` is what `runs` may become when each run gets a mutated
/// duplicate: the runs themselves, in their order, followed by their
/// duplicates, in the same order. The duplicates are drawn from the stream of
/// `seed` over the interval from 1 less `range` to 1 plus `range`, run after
/// run.
pub open spec fn duplicated<
    S: Fn(&[u8; 16], u128, Scalar, Scalar) -> Scalar,
    C: Fn(Expression) -> Scalar,
>(
    sample: &S,
    calculate: &C,
    seed: Seq<u8>,
    range: Scalar,
    runs: Seq<FireflyRunOptions>,
    all: Seq<FireflyRunOptions>,
) -> bool {
    exists|low: Scalar, high: Scalar|
        {
            &&& #[trigger] calculated(calculate, Expression::Difference(one(), range), low)
            &&& #[trigger] calculated(calculate, Expression::Sum(one(), range), high)
            &&& all.len() == runs.len() + runs.len()
            &&& forall|i: int| 0 <= i < runs.len() ==> #[trigger] all[i] == runs[i]
            &&& forall|i: int|
                0 <= i < runs.len() ==> mutation_of(
                    sample,
                    calculate,
                    seed,
                    low,
                    high,
                    draw(0, DRAWS_PER_RUN * i),
                    runs[i],
                    #[trigger] all[runs.len() + i],
                )
        }
}

/// A count scaled by a draw of the stream and rounded.
fn mutate_usize<S: Fn(&[u8; 16], u128, Scalar, Scalar) -> Scalar, C: Fn(Expression) -> Scalar>(
    value: usize,
    seed: &[u8; 16],
    draw: u128,
    low: Scalar,
    high: Scalar,
    sample: &S,
    calculate: &C,
) -> (r: usize)
    requires
        samples_all(sample),
        calculates_all(calculate),
    ensures
        scaled_count(sample, calculate, seed@, draw, low, high, value, r),
{
    let coefficient = sample(seed, draw, low, high);
    let number = calculate(Expression::Count(value));
    let product = calculate(Expression::Product(number, coefficient));
    proof {
        assert(sampled(sample, seed@, draw, low, high, coefficient));
        assert(calculated(calculate, Expression::Count(value), number));
        assert(calculated(calculate, Expression::Product(number, coefficient), product));
    }
    product.round_to_count()
}

/// A number scaled by a draw of the stream.
fn mutate_number<S: Fn(&[u8; 16], u128, Scalar, Scalar) -> Scalar, C: Fn(Expression) -> Scalar>(
    value: Scalar,
    seed: &[u8; 16],
    draw: u128,
    low: Scalar,
    high: Scalar,
    sample: &S,
    calculate: &C,
) -> (r: Scalar)
    requires
        samples_all(sample),
        calculates_all(calculate),
    ensures
        scaled_number(sample, calculate, seed@, draw, low, high, value, r),
{
    let coefficient = sample(seed, draw, low, high);
    let scaled = calculate(Expression::Product(coefficient, value));
    proof {
        assert(sampled(sample, seed@, draw, low, high, coefficient));
    }
    scaled
}

/// A mutated duplicate of `run`, drawn from draw number `first` of the
/// stream on.
pub fn mutate_run<S: Fn(&[u8; 16], u128, Scalar, Scalar) -> Scalar, C: Fn(Expression) -> Scalar>(
    run: &FireflyRunOptions,
    seed: &[u8; 16],
    first: u128,
    low: Scalar,
    high: Scalar,
    sample: &S,
    calculate: &C,
) -> (r: FireflyRunOptions)
    requires
        samples_all(sample),
        calculates_all(calculate),
    ensures
        mutation_of(sample, calculate, seed@, low, high, first, *run, r),
{
    let unit = Scalar { bits: 0x3FF0_0000_0000_0000 };
    let mut at = first;
    proof {
        lemma_draw_after_adds(first, 0, 0);
    }
    let swarm_size = mutate_usize(run.swarm_size, seed, at, low, high, sample, calculate);
    proof {
        lemma_draw_after_adds(first, 0, 1);
    }
    at = UniformF64BoundedRandomGenerator::next_draw(at);
    let maximum_iterations = mutate_usize(
        run.maximum_iterations,
        seed,
        at,
        low,
        high,
        sample,
        calculate,
    );
    proof {
        lemma_draw_after_adds(first, 1, 1);
    }
    at = UniformF64BoundedRandomGenerator::next_draw(at);
    let consider_stuck_after_n_iterations = mutate_usize(
        run.consider_stuck_after_n_iterations,
        seed,
        at,
        low,
        high,
        sample,
        calculate,
    );
    proof {
        lemma_draw_after_adds(first, 2, 1);
    }
    at = UniformF64BoundedRandomGenerator::next_draw(at);
    let attractiveness_coefficient = mutate_number(
        run.attractiveness_coefficient,
        seed,
        at,
        low,
        high,
        sample,
        calculate,
    );
    proof {
        lemma_draw_after_adds(first, 3, 1);
    }
    at = UniformF64BoundedRandomGenerator::next_draw(at);
    let light_absorption_coefficient = mutate_number(
        run.light_absorption_coefficient,
        seed,
        at,
        low,
        high,
        sample,
        calculate,
    );
    proof {
        lemma_draw_after_adds(first, 4, 1);
    }
    at = UniformF64BoundedRandomGenerator::next_draw(at);
    let movement_jitter_starting_coefficient = mutate_number(
        run.movement_jitter_starting_coefficient,
        seed,
        at,
        low,
        high,
        sample,
        calculate,
    );
    proof {
        lemma_draw_after_adds(first, 5, 1);
    }
    at = UniformF64BoundedRandomGenerator::next_draw(at);
    let cooling = mutate_number(
        run.movement_jitter_cooling_factor,
        seed,
        at,
        low,
        high,
        sample,
        calculate,
    );
    proof {
        lemma_draw_after_adds(first, 6, 1);
    }
    at = UniformF64BoundedRandomGenerator::next_draw(at);
    let movement_jitter_min_stuck_runs_to_reheat = mutate_usize(
        run.movement_jitter_min_stuck_runs_to_reheat,
        seed,
        at,
        low,
        high,
        sample,
        calculate,
    );
    proof {
        lemma_draw_after_adds(first, 7, 1);
    }
    at = UniformF64BoundedRandomGenerator::next_draw(at);
    let heating = mutate_number(
        run.movement_jitter_heating_factor,
        seed,
        at,
        low,
        high,
        sample,
        calculate,
    );
    proof {
        lemma_draw_after_adds(first, 8, 1);
    }
    at = UniformF64BoundedRandomGenerator::next_draw(at);
    let movement_jitter_minimum_coefficient = mutate_number(
        run.movement_jitter_minimum_coefficient,
        seed,
        at,
        low,
        high,
        sample,
        calculate,
    );
    proof {
        lemma_draw_after_adds(first, 9, 1);
    }
    at = UniformF64BoundedRandomGenerator::next_draw(at);
    let movement_jitter_maximum_coefficient = mutate_number(
        run.movement_jitter_maximum_coefficient,
        seed,
        at,
        low,
        high,
        sample,
        calculate,
    );
    proof {
        assert(scaled_count(
            sample,
            calculate,
            seed@,
            draw(first, 0),
            low,
            high,
            run.swarm_size,
            swarm_size,
        ));
        assert(scaled_count(
            sample,
            calculate,
            seed@,
            draw(first, 1),
            low,
            high,
            run.maximum_iterations,
            maximum_iterations,
        ));
        assert(scaled_count(
            sample,
            calculate,
            seed@,
            draw(first, 2),
            low,
            high,
            run.consider_stuck_after_n_iterations,
            consider_stuck_after_n_iterations,
        ));
        assert(scaled_number(
            sample,
            calculate,
            seed@,
            draw(first, 6),
            low,
            high,
            run.movement_jitter_cooling_factor,
            cooling,
        ));
        assert(scaled_number(
            sample,
            calculate,
            seed@,
            draw(first, 8),
            low,
            high,
            run.movement_jitter_heating_factor,
            heating,
        ));
        assert(scaled_number(
            sample,
            calculate,
            seed@,
            draw(first, 10),
            low,
            high,
            run.movement_jitter_maximum_coefficient,
            movement_jitter_maximum_coefficient,
        ));
    }
    FireflyRunOptions {
        swarm_size,
        maximum_iterations,
        consider_stuck_after_n_iterations,
        attractiveness_coefficient,
        light_absorption_coefficient,
        movement_jitter_starting_coefficient,
        movement_jitter_cooling_factor: cooling.min(unit),
        movement_jitter_min_stuck_runs_to_reheat,
        movement_jitter_heating_factor: heating.max(unit),
        movement_jitter_minimum_coefficient,
        movement_jitter_maximum_coefficient,
    }
}

/// The runs, each followed later by a mutated duplicate of itself: first all
/// runs as they are, then their duplicates. Every parameter of a duplicate is
/// that of its run times a number drawn from around 1; `mutation_range` says
/// how far from 1 the numbers may lie, 0.05 if it is not given.
pub fn mutate_each_option_as_duplicate<
    S: Fn(&[u8; 16], u128, Scalar, Scalar) -> Scalar,
    C: Fn(Expression) -> Scalar,
>(
    runs: Vec<FireflyRunOptions>,
    preprocessing_seed: [u8; 16],
    mutation_range: Option<Scalar>,
    sample: &S,
    calculate: &C,
) -> (r: Vec<FireflyRunOptions>)
    requires
        samples_all(sample),
        calculates_all(calculate),
    ensures
        duplicated(
            sample,
            calculate,
            preprocessing_seed@,
            match mutation_range {
                Some(range) => range,
                None => default_mutation_range(),
            },
            runs@,
            r@,
        ),
{
    let mutation_range = match mutation_range {
        Some(range) => range,
        None => Scalar { bits: 0x3FA9_9999_9999_999A },
    };
    let unit = Scalar { bits: 0x3FF0_0000_0000_0000 };
    let low = calculate(Expression::Difference(unit, mutation_range));
    let high = calculate(Expression::Sum(unit, mutation_range));

    let mut runs_cloned: Vec<FireflyRunOptions> = Vec::with_capacity(runs.len());
    let mut first: u128 = 0;
    let mut index: usize = 0;
    proof {
        lemma_draw_after_adds(0, 0, 0);
    }
    while index < runs.len()
        invariant
            index <= runs.len(),
            runs_cloned.len() == index,
            samples_all(sample),
            calculates_all(calculate),
            first == draw(0, DRAWS_PER_RUN * index),
            forall|i: int|
                0 <= i < index ==> mutation_of(
                    sample,
                    calculate,
                    preprocessing_seed@,
                    low,
                    high,
                    draw(0, DRAWS_PER_RUN * i),
                    runs[i],
                    #[trigger] runs_cloned[i],
                ),
        decreases runs.len() - index,
    {
        let mutated = mutate_run(
            &runs[index],
            &preprocessing_seed,
            first,
            low,
            high,
            sample,
            calculate,
        );
        runs_cloned.push(mutated);
        proof {
            lemma_draw_after_adds(0, DRAWS_PER_RUN * index, DRAWS_PER_RUN as int);
        }
        first = UniformF64BoundedRandomGenerator::draw_on(first, DRAWS_PER_RUN as u128);
        index += 1;
    }

    let ghost before = runs@;
    let ghost duplicates = runs_cloned@;
    let mut all = runs;
    let mut index: usize = 0;
    while index < runs_cloned.len()
        invariant
            index <= runs_cloned.len(),
            runs_cloned@ == duplicates,
            duplicates.len() == before.len(),
            all.len() == before.len() + index,
            forall|i: int| 0 <= i < before.len() ==> #[trigger] all[i] == before[i],
            forall|i: int| 0 <= i < index ==> #[trigger] all[before.len() + i] == duplicates[i],
        decreases runs_cloned.len() - index,
    {
        all.push(runs_cloned[index]);
        index += 1;
    }
    proof {
        assert(calculated(calculate, Expression::Difference(one(), mutation_range), low));
        assert(calculated(calculate, Expression::Sum(one(), mutation_range), high));
        assert forall|i: int| 0 <= i < before.len() implies mutation_of(
            sample,
            calculate,
            preprocessing_seed@,
            low,
            high,
            draw(0, DRAWS_PER_RUN * i),
            before[i],
            #[trigger] all@[before.len() + i],
        ) by {
            assert(all@[before.len() + i] == duplicates[i]);
        }
    }
    all
}

/// The run that the restarts of most functions are variants of.
pub open spec fn restart_base() -> FireflyRunOptions {
    FireflyRunOptions {
        swarm_size: 80,
        maximum_iterations: 20000,
        consider_stuck_after_n_iterations: 500,
        attractiveness_coefficient: Scalar { bits: 0x3FF0_0000_0000_0000 },
        light_absorption_coefficient: Scalar { bits: 0x3F94_7AE1_47AE_147B },
        movement_jitter_starting_coefficient: Scalar { bits: 0x3FB0_A3D7_0A3D_70A4 },
        movement_jitter_cooling_factor: Scalar { bits: 0x3FEF_851E_B851_EB85 },
        movement_jitter_min_stuck_runs_to_reheat: 300,
        movement_jitter_heating_factor: Scalar { bits: 0x3FF0_28F5_C28F_5C29 },
        movement_jitter_minimum_coefficient: Scalar { bits: 0x3F74_7AE1_47AE_147B },
        movement_jitter_maximum_coefficient: Scalar { bits: 0x3FBD_70A3_D70A_3D71 },
    }
}

/// The refinement run with high jitter.
pub open spec fn refinement_high_jitter() -> FireflyRunOptions {
    FireflyRunOptions {
        swarm_size: 100,
        maximum_iterations: 20000,
        consider_stuck_after_n_iterations: 1000,
        attractiveness_coefficient: Scalar { bits: 0x3FF0_0000_0000_0000 },
        light_absorption_coefficient: Scalar { bits: 0x3F94_7AE1_47AE_147B },
        movement_jitter_starting_coefficient: Scalar { bits: 0x3FC7_0A3D_70A3_D70A },
        movement_jitter_cooling_factor: Scalar { bits: 0x3FEF_F7CE_D916_872B },
        movement_jitter_min_stuck_runs_to_reheat: 250,
        movement_jitter_heating_factor: Scalar { bits: 0x3FF0_28F5_C28F_5C29 },
        movement_jitter_minimum_coefficient: Scalar { bits: 0x3FA9_9999_9999_999A },
        movement_jitter_maximum_coefficient: Scalar { bits: 0x3FE3_3333_3333_3333 },
    }
}

/// The refinement run with low jitter.
pub open spec fn refinement_low_jitter() -> FireflyRunOptions {
    FireflyRunOptions {
        swarm_size: 100,
        maximum_iterations: 20000,
        consider_stuck_after_n_iterations: 2500,
        attractiveness_coefficient: Scalar { bits: 0x3FF0_0000_0000_0000 },
        light_absorption_coefficient: Scalar { bits: 0x3F94_7AE1_47AE_147B },
        movement_jitter_starting_coefficient: Scalar { bits: 0x3F74_7AE1_47AE_147B },
        movement_jitter_cooling_factor: Scalar { bits: 0x3FEF_DF3B_645A_1CAC },
        movement_jitter_min_stuck_runs_to_reheat: 800,
        movement_jitter_heating_factor: Scalar { bits: 0x3FF0_0068_DB8B_AC71 },
        movement_jitter_minimum_coefficient: Scalar { bits: 0x3F2A_36E2_EB1C_432D },
        movement_jitter_maximum_coefficient: Scalar { bits: 0x3F84_7AE1_47AE_147B },
    }
}

/// The run that the restarts of the separable ellipsoidal function are
/// variants of.
pub open spec fn separable_ellipsoidal_base() -> FireflyRunOptions {
    FireflyRunOptions {
        swarm_size: 40,
        maximum_iterations: 20000,
        consider_stuck_after_n_iterations: 1500,
        attractiveness_coefficient: Scalar { bits: 0x3FF0_0000_0000_0000 },
        light_absorption_coefficient: Scalar { bits: 0x3F94_7AE1_47AE_147B },
        movement_jitter_starting_coefficient: Scalar { bits: 0x3FB0_A3D7_0A3D_70A4 },
        movement_jitter_cooling_factor: Scalar { bits: 0x3FEF_851E_B851_EB85 },
        movement_jitter_min_stuck_runs_to_reheat: 300,
        movement_jitter_heating_factor: Scalar { bits: 0x3FF0_28F5_C28F_5C29 },
        movement_jitter_minimum_coefficient: Scalar { bits: 0x3F84_7AE1_47AE_147B },
        movement_jitter_maximum_coefficient: Scalar { bits: 0x3FBD_70A3_D70A_3D71 },
    }
}

/// The run that the restarts of the Lunacek bi-Rastrigin function are
/// variants of.
pub open spec fn lunacek_bi_rastrigin_base() -> FireflyRunOptions {
    FireflyRunOptions {
        swarm_size: 150,
        maximum_iterations: 10000,
        consider_stuck_after_n_iterations: 800,
        attractiveness_coefficient: Scalar { bits: 0x3FF0_0000_0000_0000 },
        light_absorption_coefficient: Scalar { bits: 0x3F50_624D_D2F1_A9FC },
        movement_jitter_starting_coefficient: Scalar { bits: 0x3FC0_0000_0000_0000 },
        movement_jitter_cooling_factor: Scalar { bits: 0x3FEF_F7CE_D916_872B },
        movement_jitter_min_stuck_runs_to_reheat: 200,
        movement_jitter_heating_factor: Scalar { bits: 0x3FF0_20C4_9BA5_E354 },
        movement_jitter_minimum_coefficient: Scalar { bits: 0x3F82_6E97_8D4F_DF3B },
        movement_jitter_maximum_coefficient: Scalar { bits: 0x3FE3_3333_3333_3333 },
    }
}

/// The run that the restarts of most functions are variants of.
fn make_restart_base() -> (r: FireflyRunOptions)
    ensures
        r == restart_base(),
{
    FireflyRunOptions {
        swarm_size: 80,
        maximum_iterations: 20000,
        consider_stuck_after_n_iterations: 500,
        // 1
        attractiveness_coefficient: Scalar { bits: 0x3FF0_0000_0000_0000 },
        // 0.02
        light_absorption_coefficient: Scalar { bits: 0x3F94_7AE1_47AE_147B },
        // 0.065
        movement_jitter_starting_coefficient: Scalar { bits: 0x3FB0_A3D7_0A3D_70A4 },
        // 0.985
        movement_jitter_cooling_factor: Scalar { bits: 0x3FEF_851E_B851_EB85 },
        movement_jitter_min_stuck_runs_to_reheat: 300,
        // 1.01
        movement_jitter_heating_factor: Scalar { bits: 0x3FF0_28F5_C28F_5C29 },
        // 0.005
        movement_jitter_minimum_coefficient: Scalar { bits: 0x3F74_7AE1_47AE_147B },
        // 0.115
        movement_jitter_maximum_coefficient: Scalar { bits: 0x3FBD_70A3_D70A_3D71 },
    }
}

/// The refinement run with high jitter.
fn make_refinement_high_jitter() -> (r: FireflyRunOptions)
    ensures
        r == refinement_high_jitter(),
{
    FireflyRunOptions {
        swarm_size: 100,
        maximum_iterations: 20000,
        consider_stuck_after_n_iterations: 1000,
        // 1
        attractiveness_coefficient: Scalar { bits: 0x3FF0_0000_0000_0000 },
        // 0.02
        light_absorption_coefficient: Scalar { bits: 0x3F94_7AE1_47AE_147B },
        // 0.18
        movement_jitter_starting_coefficient: Scalar { bits: 0x3FC7_0A3D_70A3_D70A },
        // 0.999
        movement_jitter_cooling_factor: Scalar { bits: 0x3FEF_F7CE_D916_872B },
        movement_jitter_min_stuck_runs_to_reheat: 250,
        // 1.01
        movement_jitter_heating_factor: Scalar { bits: 0x3FF0_28F5_C28F_5C29 },
        // 0.05
        movement_jitter_minimum_coefficient: Scalar { bits: 0x3FA9_9999_9999_999A },
        // 0.6
        movement_jitter_maximum_coefficient: Scalar { bits: 0x3FE3_3333_3333_3333 },
    }
}

/// The refinement run with low jitter.
fn make_refinement_low_jitter() -> (r: FireflyRunOptions)
    ensures
        r == refinement_low_jitter(),
{
    FireflyRunOptions {
        swarm_size: 100,
        maximum_iterations: 20000,
        consider_stuck_after_n_iterations: 2500,
        // 1
        attractiveness_coefficient: Scalar { bits: 0x3FF0_0000_0000_0000 },
        // 0.02
        light_absorption_coefficient: Scalar { bits: 0x3F94_7AE1_47AE_147B },
        // 0.005
        movement_jitter_starting_coefficient: Scalar { bits: 0x3F74_7AE1_47AE_147B },
        // 0.996
        movement_jitter_cooling_factor: Scalar { bits: 0x3FEF_DF3B_645A_1CAC },
        movement_jitter_min_stuck_runs_to_reheat: 800,
        // 1.0001
        movement_jitter_heating_factor: Scalar { bits: 0x3FF0_0068_DB8B_AC71 },
        // 0.0002
        movement_jitter_minimum_coefficient: Scalar { bits: 0x3F2A_36E2_EB1C_432D },
        // 0.01
        movement_jitter_maximum_coefficient: Scalar { bits: 0x3F84_7AE1_47AE_147B },
    }
}

/// The run that the restarts of the separable ellipsoidal function are
/// variants of.
fn make_separable_ellipsoidal_base() -> (r: FireflyRunOptions)
    ensures
        r == separable_ellipsoidal_base(),
{
    FireflyRunOptions {
        swarm_size: 40,
        maximum_iterations: 20000,
        consider_stuck_after_n_iterations: 1500,
        // 1
        attractiveness_coefficient: Scalar { bits: 0x3FF0_0000_0000_0000 },
        // 0.02
        light_absorption_coefficient: Scalar { bits: 0x3F94_7AE1_47AE_147B },
        // 0.065
        movement_jitter_starting_coefficient: Scalar { bits: 0x3FB0_A3D7_0A3D_70A4 },
        // 0.985
        movement_jitter_cooling_factor: Scalar { bits: 0x3FEF_851E_B851_EB85 },
        movement_jitter_min_stuck_runs_to_reheat: 300,
        // 1.01
        movement_jitter_heating_factor: Scalar { bits: 0x3FF0_28F5_C28F_5C29 },
        // 0.01
        movement_jitter_minimum_coefficient: Scalar { bits: 0x3F84_7AE1_47AE_147B },
        // 0.115
        movement_jitter_maximum_coefficient: Scalar { bits: 0x3FBD_70A3_D70A_3D71 },
    }
}

/// The run that the restarts of the Lunacek bi-Rastrigin function are
/// variants of.
fn make_lunacek_bi_rastrigin_base() -> (r: FireflyRunOptions)
    ensures
        r == lunacek_bi_rastrigin_base(),
{
    FireflyRunOptions {
        swarm_size: 150,
        maximum_iterations: 10000,
        consider_stuck_after_n_iterations: 800,
        // 1
        attractiveness_coefficient: Scalar { bits: 0x3FF0_0000_0000_0000 },
        // 0.001
        light_absorption_coefficient: Scalar { bits: 0x3F50_624D_D2F1_A9FC },
        // 0.125
        movement_jitter_starting_coefficient: Scalar { bits: 0x3FC0_0000_0000_0000 },
        // 0.999
        movement_jitter_cooling_factor: Scalar { bits: 0x3FEF_F7CE_D916_872B },
        movement_jitter_min_stuck_runs_to_reheat: 200,
        // 1.008
        movement_jitter_heating_factor: Scalar { bits: 0x3FF0_20C4_9BA5_E354 },
        // 0.009
        movement_jitter_minimum_coefficient: Scalar { bits: 0x3F82_6E97_8D4F_DF3B },
        // 0.6
        movement_jitter_maximum_coefficient: Scalar { bits: 0x3FE3_3333_3333_3333 },
    }
}

/// The five jitter variants of `run_options`, as
/// [`generate_multiple_jitter_variants`] gives them.
pub open spec fn jitter_variants(run_options: FireflyRunOptions) -> Seq<FireflyRunOptions> {
    seq![
        run_options,
        extremely_high_jitter(run_options),
        high_jitter(run_options),
        medium_jitter(run_options),
        low_jitter(run_options),
    ]
}

/// The seed with which `problem` is optimized.
pub open spec fn tuned_seed(problem: BBOBFunctionType) -> [u8; 16] {
    match problem {
        BBOBFunctionType::LunacekBiRastrigin => RNG_SEED_3,
        _ => DEFAULT_RNG_SEED,
    }
}

/// Whether `options` are the ones with which `problem` is optimized.
///
/// Every function is refined with a run of high jitter and then one of low
/// jitter. The restarts of the separable ellipsoidal function are the jitter
/// variants of a run of its own. Those of every other function are the jitter
/// variants of a run, each with a mutated duplicate: for the Lunacek
/// bi-Rastrigin function those of a run of its own, mutated by up to 0.09,
/// and for the rest those of the common run, mutated by up to 0.05.
pub open spec fn tuned_for<
    S: Fn(&[u8; 16], u128, Scalar, Scalar) -> Scalar,
    C: Fn(Expression) -> Scalar,
>(sample: &S, calculate: &C, problem: BBOBFunctionType, options: FullFireflyOptions) -> bool {
    &&& options.random_generator_seed == tuned_seed(problem)
    &&& options.post_process_best_options is Some
    &&& options.post_process_best_options.unwrap()@ == seq![
        refinement_high_jitter(),
        refinement_low_jitter(),
    ]
    &&& match problem {
        BBOBFunctionType::SeparableEllipsoidal => options.per_restart_options@ == jitter_variants(
            separable_ellipsoidal_base(),
        ),
        BBOBFunctionType::LunacekBiRastrigin => duplicated(
            sample,
            calculate,
            PREPROCESSING_RNG_SEED@,
            wide_mutation_range(),
            jitter_variants(lunacek_bi_rastrigin_base()),
            options.per_restart_options@,
        ),
        _ => duplicated(
            sample,
            calculate,
            PREPROCESSING_RNG_SEED@,
            default_mutation_range(),
            jitter_variants(restart_base()),
            options.per_restart_options@,
        ),
    }
}

/// The refinement runs of every function.
fn refinement_runs() -> (r: Vec<FireflyRunOptions>)
    ensures
        r@ == seq![refinement_high_jitter(), refinement_low_jitter()],
{
    let mut runs: Vec<FireflyRunOptions> = Vec::with_capacity(2);
    runs.push(make_refinement_high_jitter());
    runs.push(make_refinement_low_jitter());
    proof {
        assert(runs@ =~= seq![refinement_high_jitter(), refinement_low_jitter()]);
    }
    runs
}

/// The options with which `problem` is optimized.
pub fn get_optimized_hyperparameters<
    S: Fn(&[u8; 16], u128, Scalar, Scalar) -> Scalar,
    C: Fn(Expression) -> Scalar,
>(problem: BBOBFunctionType, sample: &S, calculate: &C) -> (r: FullFireflyOptions)
    requires
        samples_all(sample),
        calculates_all(calculate),
    ensures
        tuned_for(sample, calculate, problem, r),
{
    match problem {
        BBOBFunctionType::SeparableEllipsoidal => FullFireflyOptions {
            random_generator_seed: DEFAULT_RNG_SEED,
            per_restart_options: generate_multiple_jitter_variants(
                make_separable_ellipsoidal_base(),
            ),
            post_process_best_options: Some(refinement_runs()),
        },
        BBOBFunctionType::LunacekBiRastrigin => FullFireflyOptions {
            random_generator_seed: RNG_SEED_3,
            per_restart_options: mutate_each_option_as_duplicate(
                generate_multiple_jitter_variants(make_lunacek_bi_rastrigin_base()),
                PREPROCESSING_RNG_SEED,
                // 0.09
                Some(Scalar { bits: 0x3FB7_0A3D_70A3_D70A }),
                sample,
                calculate,
            ),
            post_process_best_options: Some(refinement_runs()),
        },
        _ => FullFireflyOptions {
            random_generator_seed: DEFAULT_RNG_SEED,
            per_restart_options: mutate_each_option_as_duplicate(
                generate_multiple_jitter_variants(make_restart_base()),
                PREPROCESSING_RNG_SEED,
                // 0.05
                Some(Scalar { bits: 0x3FA9_9999_9999_999A }),
                sample,
                calculate,
            ),
            post_process_best_options: Some(refinement_runs()),
        },
    }
}

} // verus!
