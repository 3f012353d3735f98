//! Binary64 values as bit patterns, with the operations that never round.

use vstd::arithmetic::div_mod::{
    lemma_basic_div, lemma_div_is_ordered_by_denominator, lemma_div_multiples_vanish_quotient,
};
use vstd::arithmetic::mul::lemma_mul_strict_inequality;
use vstd::arithmetic::power2::{
    lemma2_to64, lemma2_to64_rest, lemma_pow2_adds, lemma_pow2_pos, lemma_pow2_strictly_increases,
    pow2,
};
use vstd::bits::lemma_u64_shr_is_div;
use vstd::prelude::*;

verus! {

/// The weight of the hidden leading bit of a normal value: `2^52`.
pub const HIDDEN_BIT: u64 = 0x10_0000_0000_0000;

/// The sign bit of a binary64 pattern.
pub const SIGN_BIT: u64 = 0x8000_0000_0000_0000;

/// The pattern of positive infinity; every larger magnitude is a NaN.
pub const INFINITY_BITS: u64 = 0x7ff0_0000_0000_0000;

/// The pattern of `1.0`.
pub const ONE_BITS: u64 = 0x3ff0_0000_0000_0000;

/// The pattern of `0.999`, the largest channel intensity before scaling.
pub const CHANNEL_CEILING_BITS: u64 = 0x3fef_f7ce_d916_872b;

/// The pattern of `1e-8`, below which a component counts as vanished.
pub const EPSILON_BITS: u64 = 0x3e45_798e_e230_8c3a;

/// The pattern of `0.001`, the nearest distance at which a hit counts.
pub const SHADOW_BIAS_BITS: u64 = 0x3f50_624d_d2f1_a9fc;

/// An IEEE-754 binary64 value, held as its bit pattern.
///
/// Derived equality is identity of patterns: it tells `0.0` from `-0.0` and
/// finds a NaN equal to itself. Numeric comparison is [`Scalar::lt`].
#[derive(Clone, Copy, Debug, PartialEq, Eq, Structural)]
pub struct Scalar {
    pub bits: u64,
}

impl Scalar {
    /// The pattern without its sign bit.
    pub open spec fn magnitude(self) -> u64 {
        if self.bits >= SIGN_BIT {
            (self.bits - SIGN_BIT) as u64
        } else {
            self.bits
        }
    }

    /// Whether the sign bit is set.
    pub open spec fn negative(self) -> bool {
        self.bits >= SIGN_BIT
    }

    /// Whether the pattern is a NaN.
    pub open spec fn nan(self) -> bool {
        self.magnitude() > INFINITY_BITS
    }

    /// The place of a value that is no NaN in the numeric order: the signed
    /// magnitude. Both zeros have rank 0, and `a < b` as numbers exactly when
    /// `a.rank() < b.rank()`.
    pub open spec fn rank(self) -> int {
        if self.negative() {
            -(self.magnitude() as int)
        } else {
            self.magnitude() as int
        }
    }

    /// Numeric `<`: false as soon as either side is a NaN.
    pub open spec fn less(self, other: Scalar) -> bool {
        !self.nan() && !other.nan() && self.rank() < other.rank()
    }

    /// The value with the sign bit flipped, a NaN staying a NaN.
    pub open spec fn negated(self) -> Scalar {
        if self.bits >= SIGN_BIT {
            Scalar { bits: (self.bits - SIGN_BIT) as u64 }
        } else {
            Scalar { bits: (self.bits + SIGN_BIT) as u64 }
        }
    }

    /// The value with the sign bit cleared.
    pub open spec fn absolute(self) -> Scalar {
        Scalar { bits: self.magnitude() }
    }

    /// The smaller of two values; where one is a NaN, the other; where
    /// neither is smaller, `self`.
    pub open spec fn minimum(self, other: Scalar) -> Scalar {
        if self.nan() {
            other
        } else if other.less(self) {
            other
        } else {
            self
        }
    }

    /// `self` held between `low` and `high`; a NaN stays as it is.
    pub open spec fn clamped(self, low: Scalar, high: Scalar) -> Scalar {
        if self.less(low) {
            low
        } else if high.less(self) {
            high
        } else {
            self
        }
    }

    /// The biased exponent: the eleven bits below the sign.
    pub open spec fn exponent(self) -> nat {
        (self.magnitude() / HIDDEN_BIT) as nat
    }

    /// The fraction: the low fifty-two bits.
    pub open spec fn fraction(self) -> nat {
        (self.magnitude() % HIDDEN_BIT) as nat
    }

    /// The fraction of a normal value with its hidden leading bit.
    pub open spec fn significand(self) -> nat {
        (HIDDEN_BIT + self.fraction()) as nat
    }

    /// The absolute value of a finite scalar, counted in units of `2^-1074`,
    /// the smallest positive binary64 value.
    pub open spec fn units(self) -> nat {
        if self.exponent() == 0 {
            self.fraction()
        } else {
            self.significand() * pow2((self.exponent() - 1) as nat)
        }
    }

    /// The eight-bit intensity of a channel: the value held between `0.0` and
    /// `0.999`, multiplied by 256 and cut down to a whole number. A NaN gives 0.
    pub open spec fn channel(self) -> nat {
        if self.nan() {
            0
        } else {
            self.clamped(Scalar { bits: 0 }, Scalar { bits: CHANNEL_CEILING_BITS }).units() * 256
                / pow2(1074)
        }
    }

    pub fn from_bits(bits: u64) -> (r: Scalar)
        ensures
            r.bits == bits,
    {
        Scalar { bits }
    }

    pub fn to_bits(self) -> (r: u64)
        ensures
            r == self.bits,
    {
        self.bits
    }

    pub fn is_nan(self) -> (r: bool)
        ensures
            r == self.nan(),
    {
        let magnitude = if self.bits >= SIGN_BIT {
            self.bits - SIGN_BIT
        } else {
            self.bits
        };
        magnitude > INFINITY_BITS
    }

    pub fn lt(self, other: Scalar) -> (r: bool)
        ensures
            r == self.less(other),
    {
        if self.is_nan() || other.is_nan() {
            return false;
        }
        let a_neg = self.bits >= SIGN_BIT;
        let b_neg = other.bits >= SIGN_BIT;
        if a_neg {
            let a = self.bits - SIGN_BIT;
            if b_neg {
                other.bits - SIGN_BIT < a
            } else {
                a > 0 || other.bits > 0
            }
        } else {
            if b_neg {
                false
            } else {
                self.bits < other.bits
            }
        }
    }

    pub fn gt(self, other: Scalar) -> (r: bool)
        ensures
            r == other.less(self),
    {
        other.lt(self)
    }

    /// `0.0`.
    pub fn zero() -> (r: Scalar)
        ensures
            r.bits == 0,
    {
        Scalar { bits: 0 }
    }

    /// `1.0`.
    pub fn one() -> (r: Scalar)
        ensures
            r.bits == ONE_BITS,
    {
        Scalar { bits: ONE_BITS }
    }

    /// Positive infinity.
    pub fn infinity() -> (r: Scalar)
        ensures
            r.bits == INFINITY_BITS,
    {
        Scalar { bits: INFINITY_BITS }
    }

    pub fn neg(self) -> (r: Scalar)
        ensures
            r == self.negated(),
    {
        if self.bits >= SIGN_BIT {
            Scalar { bits: self.bits - SIGN_BIT }
        } else {
            Scalar { bits: self.bits + SIGN_BIT }
        }
    }

    pub fn abs(self) -> (r: Scalar)
        ensures
            r == self.absolute(),
    {
        if self.bits >= SIGN_BIT {
            Scalar { bits: self.bits - SIGN_BIT }
        } else {
            self
        }
    }

    pub fn min(self, other: Scalar) -> (r: Scalar)
        ensures
            r == self.minimum(other),
    {
        if self.is_nan() {
            other
        } else if other.lt(self) {
            other
        } else {
            self
        }
    }

    /// Holds `self` between `low` and `high`.
    pub fn clamp(self, low: Scalar, high: Scalar) -> (r: Scalar)
        requires
            !low.nan(),
            !high.nan(),
            !high.less(low),
        ensures
            r == self.clamped(low, high),
    {
        if self.lt(low) {
            low
        } else if high.lt(self) {
            high
        } else {
            self
        }
    }

    /// The channel intensity from 0 to 255 that the value stands for.
    pub fn to_channel(self) -> (r: u8)
        ensures
            r == self.channel(),
    {
        let held = self.clamp(Scalar { bits: 0 }, Scalar { bits: CHANNEL_CEILING_BITS });
        if held.is_nan() {
            return 0;
        }
        if held.bits >= SIGN_BIT {
            proof {
                lemma_pow2_pos(1074);
            }
            return 0;
        }
        let exponent = held.bits / HIDDEN_BIT;
        let significand = HIDDEN_BIT + held.bits % HIDDEN_BIT;
        if exponent < 1015 {
            proof {
                lemma_below_one_step(held);
            }
            return 0;
        }
        let shift = 1067 - exponent;
        let whole = significand >> shift;
        proof {
            lemma_u64_shr_is_div(significand, shift);
            lemma_whole_steps(held);
            lemma2_to64_rest();
            if shift > 45 {
                lemma_pow2_strictly_increases(45, shift as nat);
            }
            lemma_div_is_ordered_by_denominator(
                significand as int,
                pow2(45) as int,
                pow2(shift as nat) as int,
            );
        }
        whole as u8
    }
}

/// A value below `2^-8` has no whole multiple of `1/256` in it.
pub proof fn lemma_below_one_step(x: Scalar)
    requires
        !x.negative(),
        x.exponent() < 1015,
    ensures
        x.units() * 256 / pow2(1074) == 0,
{
    let e = x.exponent();
    lemma2_to64();
    lemma2_to64_rest();
    lemma_pow2_pos(1074);
    if e == 0 {
        lemma_pow2_strictly_increases(60, 1074);
        assert(x.units() * 256 < pow2(60));
    } else {
        let k = (e - 1) as nat;
        lemma_pow2_pos(k);
        lemma_pow2_adds(61, k);
        assert(pow2(61 + k) == pow2(61) * pow2(k));
        lemma_mul_strict_inequality(
            (x.significand() * 256) as int,
            pow2(61) as int,
            pow2(k) as int,
        );
        assert(x.units() * 256 == x.significand() * 256 * pow2(k)) by (nonlinear_arith)
            requires
                x.units() == x.significand() * pow2(k),
        ;
        if 61 + k < 1074 {
            lemma_pow2_strictly_increases(61 + k, 1074);
        }
        assert(x.units() * 256 < pow2(1074));
    }
    lemma_basic_div((x.units() * 256) as int, pow2(1074) as int);
}

/// From `2^-8` up to 1, the whole multiples of `1/256` in a value are its
/// significand shifted right.
pub proof fn lemma_whole_steps(x: Scalar)
    requires
        !x.negative(),
        1015 <= x.exponent() <= 1022,
    ensures
        x.units() * 256 / pow2(1074) == x.significand() / pow2((1067 - x.exponent()) as nat),
{
    let e = x.exponent();
    let v = x.significand();
    let up = (e + 7) as nat;
    let down = (1067 - e) as nat;
    lemma2_to64();
    lemma_pow2_adds((e - 1) as nat, 8);
    lemma_pow2_adds(up, down);
    lemma_pow2_pos(up);
    lemma_pow2_pos(down);
    assert(x.units() * 256 == pow2(up) * v) by (nonlinear_arith)
        requires
            x.units() == v * pow2((e - 1) as nat),
            pow2(up) == pow2((e - 1) as nat) * 256,
    ;
    lemma_div_multiples_vanish_quotient(pow2(up) as int, v as int, pow2(down) as int);
}

} // verus!
