//! Real numbers as the optimizers see them.
//!
//! A [`Scalar`] carries the bit pattern of an IEEE-754 binary64 number. The
//! search engines never do arithmetic on it: they only order, compare and
//! select, and all of that is defined here on the bit pattern alone.

use vstd::prelude::*;
use vstd::arithmetic::power2::pow2;

verus! {

/// The bit pattern in which only the sign bit is set (negative zero).
pub const SIGN_BIT: u64 = 0x8000_0000_0000_0000;

/// The bit pattern of positive infinity. A larger magnitude is not a number.
pub const INFINITY_BITS: u64 = 0x7FF0_0000_0000_0000;

/// The bit pattern in which only the lowest bit of the exponent is set: the
/// significand of a normal number is its fraction above this bit.
pub const HIDDEN_BIT: u64 = 0x10_0000_0000_0000;

/// The exponent field of a number whose significand counts ones.
pub const UNIT_EXPONENT: u64 = 1075;

/// The exponent field of the infinities and of what is not a number.
pub const SPECIAL_EXPONENT: u64 = 2047;

/// Two to the power of `exponent`.
fn power_of_two(exponent: u64) -> (r: u64)
    requires
        exponent <= 63,
    ensures
        r == pow2(exponent as nat),
{
    let mut power: u64 = 1;
    let mut done: u64 = 0;
    proof {
        vstd::arithmetic::power2::lemma2_to64();
    }
    while done < exponent
        invariant
            done <= exponent <= 63,
            power == pow2(done as nat),
        decreases exponent - done,
    {
        proof {
            vstd::arithmetic::power2::lemma_pow2_unfold((done + 1) as nat);
            if done + 1 < 63 {
                vstd::arithmetic::power2::lemma_pow2_strictly_increases((done + 1) as nat, 63);
            }
            vstd::arithmetic::power2::lemma2_to64_rest();
        }
        power = power * 2;
        done += 1;
    }
    power
}

/// A binary64 number, held as its bit pattern.
#[derive(Clone, Copy, Debug, PartialEq, Eq, Structural)]
pub struct Scalar {
    pub bits: u64,
}

impl Scalar {
    /// The pattern with the sign bit cleared, as an integer.
    pub open spec fn magnitude(self) -> int {
        if self.bits >= SIGN_BIT {
            self.bits - SIGN_BIT
        } else {
            self.bits as int
        }
    }

    /// Whether the sign bit is set.
    pub open spec fn is_negative(self) -> bool {
        self.bits >= SIGN_BIT
    }

    /// Whether the pattern encodes a zero, of either sign.
    pub open spec fn is_zero(self) -> bool {
        self.magnitude() == 0
    }

    /// Whether the pattern is not a number: its magnitude lies beyond that
    /// of infinity.
    pub open spec fn spec_is_nan(self) -> bool {
        self.magnitude() > INFINITY_BITS
    }

    /// The position of the pattern in the total order of binary64 values:
    /// negative NaNs, negative infinity, the negative numbers, negative zero,
    /// positive zero, the positive numbers, positive infinity, positive NaNs.
    pub open spec fn rank(self) -> int {
        if self.is_negative() {
            -self.magnitude() - 1
        } else {
            self.magnitude()
        }
    }

    /// The exponent field of the pattern.
    pub open spec fn exponent(self) -> int {
        self.magnitude() / (HIDDEN_BIT as int)
    }

    /// The significand of a normal number, counted in units of its last
    /// place: the fraction field with the hidden bit above it.
    pub open spec fn significand(self) -> int {
        HIDDEN_BIT + self.magnitude() % (HIDDEN_BIT as int)
    }

    /// The whole number nearest to the magnitude of a finite number; of two
    /// that are equally near, the one farther from zero. The magnitude of a
    /// normal number is its significand times two to the power of its
    /// exponent field less 1075.
    pub open spec fn nearest_whole(self) -> int {
        if self.exponent() == 0 {
            0
        } else if self.exponent() >= UNIT_EXPONENT {
            self.significand() * pow2((self.exponent() - UNIT_EXPONENT) as nat)
        } else {
            (self.significand() + pow2((UNIT_EXPONENT - self.exponent() - 1) as nat)) / (pow2(
                (UNIT_EXPONENT - self.exponent()) as nat,
            ) as int)
        }
    }

    /// The number rounded to the nearest count, halves away from zero: 0 for
    /// what is below zero or not a number, and the largest count for what
    /// lies beyond it.
    pub open spec fn spec_round_to_count(self) -> usize {
        if self.spec_is_nan() || self.is_negative() {
            0
        } else if self.exponent() == SPECIAL_EXPONENT || self.nearest_whole() > usize::MAX {
            usize::MAX
        } else {
            self.nearest_whole() as usize
        }
    }

    /// Whether `self` comes strictly before `other` in the total order.
    pub open spec fn spec_total_lt(self, other: Scalar) -> bool {
        self.rank() < other.rank()
    }

    /// Whether `self` is a smaller number than `other`: both are numbers,
    /// `self` comes first in the total order, and they are not the two zeros.
    pub open spec fn spec_lt(self, other: Scalar) -> bool {
        &&& !self.spec_is_nan()
        &&& !other.spec_is_nan()
        &&& self.rank() < other.rank()
        &&& !(self.is_zero() && other.is_zero())
    }

    /// Whether `self` is a number no larger than `other`: both are numbers,
    /// and `self` does not come after `other` in the total order or they are
    /// the two zeros.
    pub open spec fn spec_le(self, other: Scalar) -> bool {
        &&& !self.spec_is_nan()
        &&& !other.spec_is_nan()
        &&& (self.rank() <= other.rank() || (self.is_zero() && other.is_zero()))
    }

    /// The larger of the two; `other` if `self` is not a number.
    pub open spec fn spec_max(self, other: Scalar) -> Scalar {
        if self.spec_is_nan() || self.spec_lt(other) {
            other
        } else {
            self
        }
    }

    /// The smaller of the two; `other` if `self` is not a number.
    pub open spec fn spec_min(self, other: Scalar) -> Scalar {
        if self.spec_is_nan() || other.spec_lt(self) {
            other
        } else {
            self
        }
    }

    /// Positive zero.
    pub open spec fn spec_zero() -> Scalar {
        Scalar { bits: 0 }
    }

    /// The largest finite number.
    pub open spec fn spec_largest() -> Scalar {
        Scalar { bits: 0x7FEF_FFFF_FFFF_FFFF }
    }

    /// The number with its sign bit flipped.
    pub open spec fn spec_neg(self) -> Scalar {
        if self.bits >= SIGN_BIT {
            Scalar { bits: (self.bits - SIGN_BIT) as u64 }
        } else {
            Scalar { bits: (self.bits + SIGN_BIT) as u64 }
        }
    }

    /// The number with its sign bit cleared.
    pub open spec fn spec_abs(self) -> Scalar {
        Scalar { bits: self.magnitude() as u64 }
    }

    /// The number with the given bit pattern.
    pub fn from_bits(bits: u64) -> (r: Scalar)
        ensures
            r.bits == bits,
    {
        Scalar { bits }
    }

    /// The bit pattern of the number.
    pub fn to_bits(self) -> (r: u64)
        ensures
            r == self.bits,
    {
        self.bits
    }

    /// Positive zero.
    #[verifier::when_used_as_spec(spec_zero)]
    pub fn zero() -> (r: Scalar)
        ensures
            r == Self::spec_zero(),
            r.is_zero(),
            !r.is_nan(),
    {
        Scalar { bits: 0 }
    }

    /// The largest finite number.
    #[verifier::when_used_as_spec(spec_largest)]
    pub fn largest() -> (r: Scalar)
        ensures
            r == Self::spec_largest(),
            !r.is_nan(),
    {
        Scalar { bits: 0x7FEF_FFFF_FFFF_FFFF }
    }

    /// Whether the pattern is not a number.
    #[verifier::when_used_as_spec(spec_is_nan)]
    pub fn is_nan(self) -> (r: bool)
        ensures
            r == self.spec_is_nan(),
    {
        let magnitude: u64 = if self.bits >= SIGN_BIT {
            self.bits - SIGN_BIT
        } else {
            self.bits
        };
        magnitude > INFINITY_BITS
    }

    /// Whether `self` comes strictly before `other` in the total order of
    /// [`Scalar::rank`]. Unlike [`Scalar::lt`] this orders every pair of
    /// distinct patterns, NaNs and the two zeros included.
    #[verifier::when_used_as_spec(spec_total_lt)]
    pub fn total_lt(self, other: Scalar) -> (r: bool)
        ensures
            r == self.spec_total_lt(other),
    {
        if self.bits >= SIGN_BIT {
            if other.bits >= SIGN_BIT {
                self.bits > other.bits
            } else {
                true
            }
        } else {
            if other.bits >= SIGN_BIT {
                false
            } else {
                self.bits < other.bits
            }
        }
    }

    /// The numeric comparison `self < other`: false when either side is not a
    /// number, and the two zeros are equal.
    #[verifier::when_used_as_spec(spec_lt)]
    pub fn lt(self, other: Scalar) -> (r: bool)
        ensures
            r == self.spec_lt(other),
    {
        if self.is_nan() || other.is_nan() {
            false
        } else if (self.bits == 0 || self.bits == SIGN_BIT) && (other.bits == 0 || other.bits
            == SIGN_BIT) {
            false
        } else {
            self.total_lt(other)
        }
    }

    /// The numeric comparison `self <= other`: false when either side is not a
    /// number.
    #[verifier::when_used_as_spec(spec_le)]
    pub fn le(self, other: Scalar) -> (r: bool)
        ensures
            r == self.spec_le(other),
    {
        if self.is_nan() || other.is_nan() {
            false
        } else if (self.bits == 0 || self.bits == SIGN_BIT) && (other.bits == 0 || other.bits
            == SIGN_BIT) {
            true
        } else {
            !other.total_lt(self)
        }
    }

    /// The larger of two numbers. If exactly one is not a number, the other
    /// one is returned; of two equal numbers, `self`.
    #[verifier::when_used_as_spec(spec_max)]
    pub fn max(self, other: Scalar) -> (r: Scalar)
        ensures
            r == self.spec_max(other),
    {
        if self.is_nan() || self.lt(other) {
            other
        } else {
            self
        }
    }

    /// The smaller of two numbers. If exactly one is not a number, the other
    /// one is returned; of two equal numbers, `self`.
    #[verifier::when_used_as_spec(spec_min)]
    pub fn min(self, other: Scalar) -> (r: Scalar)
        ensures
            r == self.spec_min(other),
    {
        if self.is_nan() || other.lt(self) {
            other
        } else {
            self
        }
    }

    /// The number rounded to the nearest count, halves away from zero. What
    /// is below zero or not a number gives 0, and what is beyond the largest
    /// count gives the largest count.
    #[verifier::when_used_as_spec(spec_round_to_count)]
    pub fn round_to_count(self) -> (r: usize)
        ensures
            r == self.spec_round_to_count(),
    {
        if self.is_nan() || self.bits >= SIGN_BIT {
            return 0;
        }
        let exponent: u64 = self.bits / HIDDEN_BIT;
        let significand: u64 = HIDDEN_BIT + self.bits % HIDDEN_BIT;
        if exponent == 0 {
            return 0;
        }
        if exponent == SPECIAL_EXPONENT {
            return usize::MAX;
        }
        proof {
            vstd::arithmetic::power2::lemma2_to64();
            vstd::arithmetic::power2::lemma2_to64_rest();
        }
        let whole: u64 = if exponent >= UNIT_EXPONENT {
            let shift: u64 = exponent - UNIT_EXPONENT;
            if shift >= 12 {
                proof {
                    if shift > 12 {
                        vstd::arithmetic::power2::lemma_pow2_strictly_increases(12, shift as nat);
                    }
                    assert(significand * pow2(shift as nat) >= 0x1_0000_0000_0000_0000)
                        by (nonlinear_arith)
                        requires
                            significand >= 0x10_0000_0000_0000,
                            pow2(shift as nat) >= 0x1000,
                    ;
                }
                return usize::MAX;
            }
            let power = power_of_two(shift);
            proof {
                if shift < 11 {
                    vstd::arithmetic::power2::lemma_pow2_strictly_increases(shift as nat, 11);
                }
                assert(significand * power < 0x1_0000_0000_0000_0000) by (nonlinear_arith)
                    requires
                        significand < 0x20_0000_0000_0000,
                        power <= 0x800,
                ;
            }
            significand * power
        } else {
            let shift: u64 = UNIT_EXPONENT - exponent;
            if shift >= 54 {
                proof {
                    let below = (shift - 1) as nat;
                    if below > 53 {
                        vstd::arithmetic::power2::lemma_pow2_strictly_increases(53, below);
                    }
                    vstd::arithmetic::power2::lemma_pow2_unfold(shift as nat);
                    vstd::arithmetic::div_mod::lemma_basic_div(
                        significand + pow2(below),
                        pow2(shift as nat) as int,
                    );
                }
                return 0;
            }
            let half = power_of_two(shift - 1);
            let unit = power_of_two(shift);
            proof {
                if shift < 53 {
                    vstd::arithmetic::power2::lemma_pow2_strictly_increases(shift as nat, 53);
                }
                vstd::arithmetic::power2::lemma_pow2_unfold(shift as nat);
            }
            (significand + half) / unit
        };
        if whole > usize::MAX as u64 {
            usize::MAX
        } else {
            whole as usize
        }
    }

    /// The number with its sign bit flipped.
    #[verifier::when_used_as_spec(spec_neg)]
    pub fn neg(self) -> (r: Scalar)
        ensures
            r == self.spec_neg(),
            r.is_nan() == self.is_nan(),
            r.magnitude() == self.magnitude(),
            r.is_negative() != self.is_negative(),
    {
        if self.bits >= SIGN_BIT {
            Scalar { bits: self.bits - SIGN_BIT }
        } else {
            Scalar { bits: self.bits + SIGN_BIT }
        }
    }

    /// The number with its sign bit cleared.
    #[verifier::when_used_as_spec(spec_abs)]
    pub fn abs(self) -> (r: Scalar)
        ensures
            r == self.spec_abs(),
            !r.is_negative(),
            r.is_nan() == self.is_nan(),
    {
        if self.bits >= SIGN_BIT {
            Scalar { bits: self.bits - SIGN_BIT }
        } else {
            self
        }
    }
}

/// `lt` is a strict partial order on numbers: nothing is below itself.
pub proof fn lemma_lt_irreflexive(a: Scalar)
    ensures
        !a.lt(a),
{
}

/// `lt` is transitive.
pub proof fn lemma_lt_transitive(a: Scalar, b: Scalar, c: Scalar)
    requires
        a.lt(b),
        b.lt(c),
    ensures
        a.lt(c),
{
}

/// `le` is `lt` or numeric equality, which holds of equal patterns and of
/// the two zeros.
pub proof fn lemma_le_is_lt_or_equal(a: Scalar, b: Scalar)
    requires
        !a.is_nan(),
        !b.is_nan(),
    ensures
        a.le(b) <==> (a.lt(b) || a == b || (a.is_zero() && b.is_zero())),
        a.le(b) || b.le(a),
        a.le(b) <==> !b.lt(a),
{
}

/// Whatever is numerically smaller also comes first in the total order.
pub proof fn lemma_lt_implies_total_lt(a: Scalar, b: Scalar)
    requires
        a.lt(b),
    ensures
        a.total_lt(b),
{
}

/// The total order is a strict total order on bit patterns.
pub proof fn lemma_total_order(a: Scalar, b: Scalar, c: Scalar)
    ensures
        !a.total_lt(a),
        a.total_lt(b) && b.total_lt(c) ==> a.total_lt(c),
        a.total_lt(b) || b.total_lt(a) || a == b,
{
}

/// Mixing `le` and `lt` keeps strictness.
pub proof fn lemma_le_lt_transitive(a: Scalar, b: Scalar, c: Scalar)
    ensures
        a.le(b) && b.lt(c) ==> a.lt(c),
        a.lt(b) && b.le(c) ==> a.lt(c),
        a.le(b) && b.le(c) ==> a.le(c),
{
}

} // verus!
