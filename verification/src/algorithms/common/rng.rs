//! Seeded streams of random bytes and indices.
//!
//! A stream is fixed by its seed: the same seed gives the same bytes in the
//! same order, whenever and wherever it is asked. The optimizers draw the
//! seeds of all their other random streams from one such stream, so that a
//! single seed fixes a whole run.

use vstd::prelude::*;
use crate::algorithms::common::arithmetic::{
    calculated,
    calculates_all,
    sampled,
    samples_all,
    Expression,
};
use crate::algorithms::common::structs::{Neighborhood, State};
use crate::bbob::problem::Bounds;
use crate::scalar::Scalar;

verus! {

/// The byte that a `Pcg64Mcg` seeded with `seed` gives, through the uniform
/// distribution over the bytes from `low` to `high`, after `index` earlier
/// outputs.
pub uninterp spec fn seeded_byte(seed: Seq<u8>, index: nat, low: u8, high: u8) -> u8;

/// The number that a `Pcg64Mcg` seeded with `seed` gives, through the
/// uniform distribution over the numbers from `low` up to, but not including,
/// `high`, after `skip` earlier outputs.
pub uninterp spec fn seeded_number(seed: Seq<u8>, skip: nat, low: u64, high: u64) -> u64;

/// `Uniform::new_inclusive(low, high).sample(rng)` on the generator that
/// `Pcg64Mcg::from_seed(seed)` makes and `Mcg128Xsl64::advance(index)` moves
/// on by `index` outputs: a byte from `low` to `high` that depends on `seed`,
/// `index` and the two ends alone. Making the distribution panics when `low`
/// exceeds `high`.
#[verifier::external_body]
fn byte_at(seed: [u8; 16], index: u128, low: u8, high: u8) -> (r: u8)
    requires
        low <= high,
    ensures
        low <= r <= high,
        r == seeded_byte(seed@, index as nat, low, high),
{
    let mut rng = <rand_pcg::Mcg128Xsl64 as rand::SeedableRng>::from_seed(seed);
    rng.advance(index);
    let distribution = rand::distributions::Uniform::new_inclusive(low, high);
    rand::distributions::Distribution::sample(&distribution, &mut rng)
}

/// `Uniform::new(low, high).sample(rng)` on the generator that
/// `Pcg64Mcg::from_seed(seed)` makes and `Mcg128Xsl64::advance(skip)` moves
/// on by `skip` outputs: a number from `low` up to, but not including, `high`
/// that depends on `seed`, `skip` and the two ends alone. Making the
/// distribution panics unless `low` is below `high`.
#[verifier::external_body]
fn number_at(seed: [u8; 16], skip: u128, low: u64, high: u64) -> (r: u64)
    requires
        low < high,
    ensures
        low <= r < high,
        r == seeded_number(seed@, skip as nat, low, high),
{
    let mut rng = <rand_pcg::Mcg128Xsl64 as rand::SeedableRng>::from_seed(seed);
    rng.advance(skip);
    let distribution = rand::distributions::Uniform::new(low, high);
    rand::distributions::Distribution::sample(&distribution, &mut rng)
}

/// Byte number `index` of the stream of `seed`: a draw from all 256 values.
/// Each such draw takes one output of the generator.
pub open spec fn stream_byte(seed: Seq<u8>, index: nat) -> u8 {
    seeded_byte(seed, index, u8::MIN, u8::MAX)
}

/// The index below `len` that draw number `draw` of the stream of `seed`
/// gives. The index is drawn as a 64-bit number, so that it is the same on
/// every machine.
pub open spec fn stream_index(seed: Seq<u8>, draw: nat, len: nat) -> nat {
    seeded_number(seed, draw, 0, len as u64) as nat
}

/// A count of draws, taken modulo 2^128.
pub closed spec fn wrapped_position(count: int) -> nat {
    (count % (u128::MAX + 1)) as nat
}

/// A count that fits 128 bits is not changed by wrapping, and a wrapped
/// count fits 128 bits.
pub proof fn lemma_wrapped_position_fits(count: int)
    ensures
        wrapped_position(count) <= u128::MAX,
        0 <= count <= u128::MAX ==> wrapped_position(count) == count,
{
}

/// Counting on from a wrapped count is counting on from the count itself.
pub proof fn lemma_wrapped_position_adds(count: int, more: int)
    requires
        count >= 0,
        more >= 0,
    ensures
        wrapped_position(wrapped_position(count) + more) == wrapped_position(count + more),
{
    let modulus = u128::MAX + 1;
    vstd::arithmetic::div_mod::lemma_add_mod_noop(count % modulus, more, modulus);
    vstd::arithmetic::div_mod::lemma_add_mod_noop(count, more, modulus);
    vstd::arithmetic::div_mod::lemma_mod_twice(count, modulus);
}

/// A seeded stream of bytes, each uniform over all 256 values.
#[derive(Clone, Copy, Debug)]
pub struct UniformU8RandomGenerator {
    seed: [u8; 16],
    position: u128,
}

impl UniformU8RandomGenerator {
    /// The seed of the stream.
    pub closed spec fn seed(self) -> Seq<u8> {
        self.seed@
    }

    /// How many bytes have been drawn from the stream. The count starts
    /// again at 0 after `u128::MAX`, well beyond the period of the generator.
    pub closed spec fn position(self) -> nat {
        self.position as nat
    }

    /// The stream that `seed` fixes, at its start.
    pub fn new(seed: [u8; 16]) -> (r: Self)
        ensures
            r.seed() == seed@,
            r.position() == 0,
    {
        Self { seed, position: 0 }
    }

    /// How many bytes have been drawn from the stream.
    pub fn bytes_drawn(&self) -> (r: u128)
        ensures
            r == self.position(),
    {
        self.position
    }

    /// The next `L` bytes of the stream.
    pub fn sample_multiple<const L: usize>(&mut self) -> (r: [u8; L])
        ensures
            final(self).seed() == old(self).seed(),
            final(self).position() == wrapped_position(old(self).position() + L),
            forall|k: int|
                0 <= k < L ==> #[trigger] r[k] == stream_byte(
                    old(self).seed(),
                    wrapped_position(old(self).position() + k),
                ),
    {
        let mut bytes: [u8; L] = [0u8; L];
        let mut k: usize = 0;
        while k < L
            invariant
                k <= L,
                self.seed == old(self).seed,
                self.position as nat == wrapped_position(old(self).position + k),
                forall|j: int|
                    0 <= j < k ==> #[trigger] bytes[j] == stream_byte(
                        old(self).seed@,
                        wrapped_position(old(self).position + j),
                    ),
            decreases L - k,
        {
            let byte: u8 = byte_at(self.seed, self.position, u8::MIN, u8::MAX);
            bytes[k] = byte;
            self.position = self.position.wrapping_add(1);
            k += 1;
        }
        bytes
    }
}

/// A seeded stream of indices for choosing one of several items.
#[derive(Clone, Copy, Debug)]
pub struct UniformIndexGenerator {
    seed: [u8; 16],
    draws: u128,
}

impl UniformIndexGenerator {
    /// The seed of the stream.
    pub closed spec fn seed(self) -> Seq<u8> {
        self.seed@
    }

    /// How many indices have been drawn from the stream.
    pub closed spec fn draws(self) -> nat {
        self.draws as nat
    }

    /// The stream that `seed` fixes, at its start.
    pub fn new(seed: [u8; 16]) -> (r: Self)
        ensures
            r.seed() == seed@,
            r.draws() == 0,
    {
        Self { seed, draws: 0 }
    }

    /// The next index below `len`, or `None` when `len` is 0 or the stream is
    /// used up. A draw that gives `None` leaves the stream as it is.
    pub fn sample(&mut self, len: usize) -> (r: Option<usize>)
        ensures
            final(self).seed() == old(self).seed(),
            r is Some <==> len > 0 && old(self).draws() < u128::MAX,
            r is Some ==> r.unwrap() < len && r.unwrap() == stream_index(
                old(self).seed(),
                old(self).draws(),
                len as nat,
            ) && final(self).draws() == old(self).draws() + 1,
            r is None ==> final(self).draws() == old(self).draws(),
    {
        if len == 0 || self.draws == u128::MAX {
            return None;
        }
        let index: u64 = number_at(self.seed, self.draws, 0, len as u64);
        self.draws = self.draws + 1;
        Some(index as usize)
    }
}

/// One of `vec`, chosen by the next index of the stream `generator`; `None`
/// if there is nothing to choose from or the stream is used up.
pub fn choose_random(vec: &Vec<State>, generator: &mut UniformIndexGenerator) -> (r: Option<State>)
    ensures
        final(generator).seed() == old(generator).seed(),
        r is Some <==> vec.len() > 0 && old(generator).draws() < u128::MAX,
        r is Some ==> stream_index(
            old(generator).seed(),
            old(generator).draws(),
            vec.len() as nat,
        ) < vec.len() && r.unwrap()@ == vec[stream_index(
            old(generator).seed(),
            old(generator).draws(),
            vec.len() as nat,
        ) as int]@ && final(generator).draws() == old(generator).draws() + 1,
        r is None ==> final(generator).draws() == old(generator).draws(),
{
    match generator.sample(vec.len()) {
        Some(index) => Some(vec[index].duplicate()),
        None => None,
    }
}

/// One of the states of `neighborhood`, chosen by the next index of the
/// stream `generator`; `None` if the neighborhood is empty or the stream is
/// used up.
pub fn random_choice(neighborhood: &Neighborhood, generator: &mut UniformIndexGenerator) -> (r:
    Option<State>)
    ensures
        final(generator).seed() == old(generator).seed(),
        r is Some <==> neighborhood.states.len() > 0 && old(generator).draws() < u128::MAX,
        r is Some ==> stream_index(
            old(generator).seed(),
            old(generator).draws(),
            neighborhood.states.len() as nat,
        ) < neighborhood.states.len() && r.unwrap()@ == neighborhood.states[stream_index(
            old(generator).seed(),
            old(generator).draws(),
            neighborhood.states.len() as nat,
        ) as int]@ && final(generator).draws() == old(generator).draws() + 1,
        r is None ==> final(generator).draws() == old(generator).draws(),
{
    choose_random(&neighborhood.states, generator)
}

/// The number 1.
pub open spec fn one() -> Scalar {
    Scalar { bits: 0x3FF0_0000_0000_0000 }
}

/// Whether `unit` is what `calculate` may give for `drawn`, a number of
/// `[low, high]`, brought to `[0, 1]`: one over the width of the interval,
/// times the distance of `drawn` from `low`.
pub open spec fn rescaled<C: Fn(Expression) -> Scalar>(
    calculate: &C,
    low: Scalar,
    high: Scalar,
    drawn: Scalar,
    unit: Scalar,
) -> bool {
    exists|width: Scalar, factor: Scalar, distance: Scalar|
        {
            &&& #[trigger] calculated(calculate, Expression::Difference(high, low), width)
            &&& #[trigger] calculated(calculate, Expression::Quotient(one(), width), factor)
            &&& #[trigger] calculated(calculate, Expression::Difference(drawn, low), distance)
            &&& #[trigger] calculated(calculate, Expression::Product(factor, distance), unit)
        }
}

/// A seeded stream of numbers, each uniform over an interval.
///
/// The stream keeps the seed and counts the draws; the numbers themselves
/// come from the caller's sampler, which is asked for draw number `draws` of
/// the stream of `seed` over the interval.
#[derive(Clone, Copy, Debug)]
pub struct UniformF64BoundedRandomGenerator {
    bounds: Bounds,
    seed: [u8; 16],
    draws: u128,
}

impl UniformF64BoundedRandomGenerator {
    /// The interval over which the numbers of the stream are uniform.
    pub closed spec fn interval(self) -> Bounds {
        self.bounds
    }

    /// The seed of the stream.
    pub closed spec fn seed(self) -> Seq<u8> {
        self.seed@
    }

    /// How many numbers have been drawn from the stream. The count starts
    /// again at 0 after `u128::MAX`, well beyond the period of the generator.
    pub closed spec fn draws(self) -> u128 {
        self.draws
    }

    /// The draw number that follows `count` draws after `draws`.
    pub closed spec fn draw_after(draws: u128, count: int) -> u128 {
        wrapped_position(draws + count) as u128
    }

    /// The draw number that follows `draws`.
    pub fn next_draw(draws: u128) -> (r: u128)
        ensures
            r == Self::draw_after(draws, 1),
    {
        draws.wrapping_add(1)
    }

    /// The draw number that follows `count` draws after `draws`.
    pub fn draw_on(draws: u128, count: u128) -> (r: u128)
        ensures
            r == Self::draw_after(draws, count as int),
    {
        draws.wrapping_add(count)
    }

    /// The stream over `bounds` that `seed` fixes, at its start.
    pub fn new(bounds: Bounds, seed: [u8; 16]) -> (r: Self)
        ensures
            r.interval() == bounds,
            r.seed() == seed@,
            r.draws() == 0,
    {
        Self { bounds, seed, draws: 0 }
    }

    /// The interval over which the numbers of the stream are uniform.
    pub fn bounds(&self) -> (r: Bounds)
        ensures
            r == self.interval(),
    {
        self.bounds
    }

    /// The next number of the stream.
    pub fn sample<S: Fn(&[u8; 16], u128, Scalar, Scalar) -> Scalar>(&mut self, sample: &S) -> (r:
        Scalar)
        requires
            samples_all(sample),
        ensures
            final(self).interval() == old(self).interval(),
            final(self).seed() == old(self).seed(),
            final(self).draws() == Self::draw_after(old(self).draws(), 1),
            sampled(
                sample,
                old(self).seed(),
                old(self).draws(),
                old(self).interval().lower(),
                old(self).interval().upper(),
                r,
            ),
    {
        let low = self.bounds.lower_bound();
        let high = self.bounds.upper_bound();
        let drawn = sample(&self.seed, self.draws, low, high);
        self.draws = self.draws.wrapping_add(1);
        drawn
    }

    /// The next `samples` numbers of the stream.
    pub fn sample_multiple<S: Fn(&[u8; 16], u128, Scalar, Scalar) -> Scalar>(
        &mut self,
        samples: usize,
        sample: &S,
    ) -> (r: Vec<Scalar>)
        requires
            samples_all(sample),
        ensures
            final(self).interval() == old(self).interval(),
            final(self).seed() == old(self).seed(),
            final(self).draws() == Self::draw_after(old(self).draws(), samples as int),
            r.len() == samples,
            forall|k: int|
                0 <= k < samples ==> sampled(
                    sample,
                    old(self).seed(),
                    Self::draw_after(old(self).draws(), k),
                    old(self).interval().lower(),
                    old(self).interval().upper(),
                    #[trigger] r[k],
                ),
    {
        let mut drawn: Vec<Scalar> = Vec::with_capacity(samples);
        let mut k: usize = 0;
        while k < samples
            invariant
                k <= samples,
                drawn.len() == k,
                samples_all(sample),
                self.bounds == old(self).bounds,
                self.seed == old(self).seed,
                self.draws == Self::draw_after(old(self).draws, k as int),
                forall|j: int|
                    0 <= j < k ==> sampled(
                        sample,
                        old(self).seed@,
                        Self::draw_after(old(self).draws, j),
                        old(self).interval().lower(),
                        old(self).interval().upper(),
                        #[trigger] drawn[j],
                    ),
            decreases samples - k,
        {
            let next = self.sample(sample);
            drawn.push(next);
            k += 1;
        }
        drawn
    }

    /// The next number of the stream, brought from the interval of the
    /// stream to `[0, 1]`.
    pub fn sample_0_to_1<S: Fn(&[u8; 16], u128, Scalar, Scalar) -> Scalar, C: Fn(Expression) -> Scalar>(
        &mut self,
        sample: &S,
        calculate: &C,
    ) -> (r: Scalar)
        requires
            samples_all(sample),
            calculates_all(calculate),
        ensures
            final(self).interval() == old(self).interval(),
            final(self).seed() == old(self).seed(),
            final(self).draws() == Self::draw_after(old(self).draws(), 1),
            exists|drawn: Scalar|
                #[trigger] sampled(
                    sample,
                    old(self).seed(),
                    old(self).draws(),
                    old(self).interval().lower(),
                    old(self).interval().upper(),
                    drawn,
                ) && rescaled(
                    calculate,
                    old(self).interval().lower(),
                    old(self).interval().upper(),
                    drawn,
                    r,
                ),
    {
        let low = self.bounds.lower_bound();
        let high = self.bounds.upper_bound();
        let random_num = self.sample(sample);
        let width = calculate(Expression::Difference(high, low));
        let factor = calculate(
            Expression::Quotient(Scalar { bits: 0x3FF0_0000_0000_0000 }, width),
        );
        let distance = calculate(Expression::Difference(random_num, low));
        let unit = calculate(Expression::Product(factor, distance));
        proof {
            assert(calculated(calculate, Expression::Difference(high, low), width));
            assert(calculated(calculate, Expression::Quotient(one(), width), factor));
            assert(calculated(calculate, Expression::Difference(random_num, low), distance));
            assert(calculated(calculate, Expression::Product(factor, distance), unit));
            assert(rescaled(calculate, low, high, random_num, unit));
        }
        unit
    }
}

/// Counting no draw on leaves the draw number as it is, and counting on in
/// two steps is counting on by their sum.
pub proof fn lemma_draw_after_adds(draws: u128, first: int, second: int)
    requires
        first >= 0,
        second >= 0,
    ensures
        UniformF64BoundedRandomGenerator::draw_after(draws, 0) == draws,
        UniformF64BoundedRandomGenerator::draw_after(
            UniformF64BoundedRandomGenerator::draw_after(draws, first),
            second,
        ) == UniformF64BoundedRandomGenerator::draw_after(draws, first + second),
{
    lemma_wrapped_position_adds(draws + first, second);
}

/// Two streams with the same seed give the same bytes at the same place.
pub proof fn lemma_streams_agree(first: UniformU8RandomGenerator, second: UniformU8RandomGenerator, k: nat)
    requires
        first.seed() == second.seed(),
        first.position() == second.position(),
    ensures
        stream_byte(first.seed(), first.position() + k) == stream_byte(
            second.seed(),
            second.position() + k,
        ),
{
}

} // verus!
