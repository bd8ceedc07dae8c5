//! Double-precision numbers as bit patterns.
//!
//! The library never computes with real numbers. It carries each IEEE-754
//! binary64 value as the 64 bits that encode it and only ever asks how two
//! such values compare and which whole number lies next to one, which the
//! encoding answers with integer arithmetic.

use vstd::prelude::*;

verus! {

/// The bit that holds the sign of a binary64 value.
pub const SIGN_BIT: u64 = 0x8000_0000_0000_0000;

/// The magnitude bits of infinity; a larger magnitude encodes no number.
pub const INFINITY_BITS: u64 = 0x7FF0_0000_0000_0000;

/// The lowest bit of the exponent, 2^52: the bit that the significand of a
/// normal number has above its fraction.
pub const HIDDEN_BIT: u64 = 0x0010_0000_0000_0000;

/// The whole number `x` as far as 64 signed bits hold it: what lies beyond
/// becomes the nearest bound.
pub open spec fn saturated(x: int) -> i64 {
    if x < i64::MIN {
        i64::MIN
    } else if x > i64::MAX {
        i64::MAX
    } else {
        x as i64
    }
}

/// Two to the power of `k`.
fn power_of_two(k: u64) -> (p: u64)
    requires
        k <= 62,
    ensures
        p == vstd::arithmetic::power2::pow2(k as nat),
        1 <= p <= 0x4000_0000_0000_0000,
{
    let mut p: u64 = 1;
    let mut i: u64 = 0;
    proof {
        vstd::arithmetic::power2::lemma2_to64();
    }
    while i < k
        invariant
            i <= k <= 62,
            p == vstd::arithmetic::power2::pow2(i as nat),
            1 <= p <= 0x4000_0000_0000_0000,
        decreases k - i,
    {
        proof {
            vstd::arithmetic::power2::lemma_pow2_unfold((i + 1) as nat);
            vstd::arithmetic::power2::lemma2_to64_rest();
            if i < 61 {
                vstd::arithmetic::power2::lemma_pow2_strictly_increases(i as nat, 61);
            }
        }
        p = 2 * p;
        i = i + 1;
    }
    p
}

/// An IEEE-754 binary64 value, held by its bit pattern.
#[derive(Clone, Copy, Debug)]
pub struct Double {
    /// Sign, exponent and fraction, as `to_bits` of the value gives them.
    pub bits: u64,
}

impl Double {
    /// The bits without the sign: the encoding of the absolute value.
    pub open spec fn magnitude(self) -> int {
        if self.bits >= SIGN_BIT {
            self.bits - SIGN_BIT
        } else {
            self.bits as int
        }
    }

    /// Whether the sign bit is set.
    pub open spec fn is_negative(self) -> bool {
        self.bits >= SIGN_BIT
    }

    /// Whether the bits encode no number.
    pub open spec fn spec_is_nan(self) -> bool {
        self.magnitude() > INFINITY_BITS
    }

    /// Whether the value is zero, of either sign.
    pub open spec fn spec_is_zero(self) -> bool {
        self.magnitude() == 0
    }

    /// The place of a number in the order of all numbers: magnitudes of one
    /// sign are ordered as their encodings are, and both zeros share a place.
    pub open spec fn rank(self) -> int {
        if self.is_negative() {
            -self.magnitude()
        } else {
            self.magnitude()
        }
    }

    /// `self < other` as IEEE-754 defines it: false where either is no number.
    pub open spec fn spec_lt(self, other: Double) -> bool {
        !self.spec_is_nan() && !other.spec_is_nan() && self.rank() < other.rank()
    }

    /// `self <= other` as IEEE-754 defines it.
    pub open spec fn spec_le(self, other: Double) -> bool {
        !self.spec_is_nan() && !other.spec_is_nan() && self.rank() <= other.rank()
    }

    /// `self > other` as IEEE-754 defines it.
    pub open spec fn spec_gt(self, other: Double) -> bool {
        other.spec_lt(self)
    }

    /// `self >= other` as IEEE-754 defines it.
    pub open spec fn spec_ge(self, other: Double) -> bool {
        other.spec_le(self)
    }

    /// `self == other` as IEEE-754 defines it: the zeros are equal, and what
    /// is no number equals nothing.
    pub open spec fn spec_equals(self, other: Double) -> bool {
        !self.spec_is_nan() && !other.spec_is_nan() && self.rank() == other.rank()
    }

    /// The exponent field: 0 for zero and the subnormal numbers, 2047 for
    /// infinity and for what is no number.
    pub open spec fn exponent(self) -> int {
        self.magnitude() / (HIDDEN_BIT as int)
    }

    /// The fraction field.
    pub open spec fn fraction(self) -> int {
        self.magnitude() % (HIDDEN_BIT as int)
    }

    /// The significand as a whole number: the absolute value is
    /// `significand * 2^scale`.
    pub open spec fn significand(self) -> int {
        if self.exponent() == 0 {
            self.fraction()
        } else {
            HIDDEN_BIT + self.fraction()
        }
    }

    /// The power of two that the significand is scaled by.
    pub open spec fn scale(self) -> int {
        if self.exponent() == 0 {
            -1074
        } else {
            self.exponent() - 1075
        }
    }

    /// The numerator of the value as a fraction: the significand with the
    /// sign. The value is `numerator * 2^scale`.
    pub open spec fn numerator(self) -> int {
        if self.is_negative() {
            -self.significand()
        } else {
            self.significand()
        }
    }

    /// The denominator of the value as a fraction, where the scale is below
    /// zero: the value is `numerator / denominator`.
    pub open spec fn denominator(self) -> int {
        vstd::arithmetic::power2::pow2((-self.scale()) as nat) as int
    }

    /// The absolute value without what follows the point.
    pub open spec fn whole_part(self) -> int {
        if self.scale() >= 0 {
            self.significand() * vstd::arithmetic::power2::pow2(self.scale() as nat)
        } else {
            self.significand() / (vstd::arithmetic::power2::pow2((-self.scale()) as nat) as int)
        }
    }

    /// Whether nothing follows the point.
    pub open spec fn is_whole(self) -> bool {
        self.scale() >= 0 || self.significand() % (vstd::arithmetic::power2::pow2(
            (-self.scale()) as nat,
        ) as int) == 0
    }

    /// Whether what follows the point is a half or more.
    pub open spec fn has_half(self) -> bool {
        self.scale() < 0 && 2 * (self.significand() % (vstd::arithmetic::power2::pow2(
            (-self.scale()) as nat,
        ) as int)) >= vstd::arithmetic::power2::pow2((-self.scale()) as nat)
    }

    /// The largest whole number that is not above the value. Infinity counts
    /// as a number beyond all that 64 bits hold.
    pub open spec fn floor_int(self) -> int {
        if !self.is_negative() {
            self.whole_part()
        } else if self.is_whole() {
            -self.whole_part()
        } else {
            -self.whole_part() - 1
        }
    }

    /// The smallest whole number that is not below the value.
    pub open spec fn ceil_int(self) -> int {
        if self.is_negative() {
            -self.whole_part()
        } else if self.is_whole() {
            self.whole_part()
        } else {
            self.whole_part() + 1
        }
    }

    /// The nearest whole number; of two that are equally near, the one
    /// farther from zero.
    pub open spec fn round_int(self) -> int {
        let away = if self.has_half() {
            self.whole_part() + 1
        } else {
            self.whole_part()
        };
        if self.is_negative() {
            -away
        } else {
            away
        }
    }

    /// The value rounded down, as far as 64 signed bits hold it; 0 for what
    /// is no number.
    pub open spec fn spec_floor(self) -> i64 {
        if self.spec_is_nan() {
            0
        } else {
            saturated(self.floor_int())
        }
    }

    /// The value rounded up, as far as 64 signed bits hold it; 0 for what is
    /// no number.
    pub open spec fn spec_ceil(self) -> i64 {
        if self.spec_is_nan() {
            0
        } else {
            saturated(self.ceil_int())
        }
    }

    /// The value rounded to the nearest whole number, as far as 64 signed
    /// bits hold it; 0 for what is no number.
    pub open spec fn spec_round(self) -> i64 {
        if self.spec_is_nan() {
            0
        } else {
            saturated(self.round_int())
        }
    }

    /// The value rounded up, as a count: 0 for what is below zero and for
    /// what is no number, and the largest count for what lies beyond it.
    pub open spec fn spec_ceil_count(self) -> usize {
        if self.spec_is_nan() || self.ceil_int() < 0 {
            0
        } else if self.ceil_int() > usize::MAX {
            usize::MAX
        } else {
            self.ceil_int() as usize
        }
    }

    /// The value with the given encoding.
    pub fn from_bits(bits: u64) -> (r: Double)
        ensures
            r.bits == bits,
    {
        Double { bits }
    }

    /// The encoding of the value.
    pub fn to_bits(self) -> (r: u64)
        ensures
            r == self.bits,
    {
        self.bits
    }

    /// Positive zero.
    pub fn zero() -> (r: Double)
        ensures
            r.bits == 0,
    {
        Double { bits: 0 }
    }

    fn magnitude_bits(self) -> (r: u64)
        ensures
            r == self.magnitude(),
    {
        if self.bits >= SIGN_BIT {
            self.bits - SIGN_BIT
        } else {
            self.bits
        }
    }

    fn rank_of(self) -> (r: i128)
        ensures
            r == self.rank(),
    {
        let magnitude: i128 = self.magnitude_bits() as i128;
        if self.bits >= SIGN_BIT {
            -magnitude
        } else {
            magnitude
        }
    }

    /// Whether the bits encode no number.
    #[verifier::when_used_as_spec(spec_is_nan)]
    pub fn is_nan(self) -> (r: bool)
        ensures
            r == self.spec_is_nan(),
    {
        self.magnitude_bits() > INFINITY_BITS
    }

    /// Whether the value is zero, of either sign.
    #[verifier::when_used_as_spec(spec_is_zero)]
    pub fn is_zero(self) -> (r: bool)
        ensures
            r == self.spec_is_zero(),
    {
        self.magnitude_bits() == 0
    }

    /// `self < other`.
    #[verifier::when_used_as_spec(spec_lt)]
    pub fn lt(self, other: Double) -> (r: bool)
        ensures
            r == self.spec_lt(other),
    {
        !self.is_nan() && !other.is_nan() && self.rank_of() < other.rank_of()
    }

    /// `self <= other`.
    #[verifier::when_used_as_spec(spec_le)]
    pub fn le(self, other: Double) -> (r: bool)
        ensures
            r == self.spec_le(other),
    {
        !self.is_nan() && !other.is_nan() && self.rank_of() <= other.rank_of()
    }

    /// `self > other`.
    #[verifier::when_used_as_spec(spec_gt)]
    pub fn gt(self, other: Double) -> (r: bool)
        ensures
            r == self.spec_gt(other),
    {
        other.lt(self)
    }

    /// `self >= other`.
    #[verifier::when_used_as_spec(spec_ge)]
    pub fn ge(self, other: Double) -> (r: bool)
        ensures
            r == self.spec_ge(other),
    {
        other.le(self)
    }

    /// `self == other`, numerically.
    #[verifier::when_used_as_spec(spec_equals)]
    pub fn equals(self, other: Double) -> (r: bool)
        ensures
            r == self.spec_equals(other),
    {
        !self.is_nan() && !other.is_nan() && self.rank_of() == other.rank_of()
    }

    /// The whole part of the absolute value, where it is below 2^64, with
    /// whether nothing follows the point, and whether a half or more does.
    fn split(self) -> (r: (Option<u64>, bool, bool))
        ensures
            r.0 matches Some(whole) ==> whole == self.whole_part(),
            r.0 is None ==> self.whole_part() >= 0x1_0000_0000_0000_0000 && self.scale() >= 0,
            r.1 == self.is_whole(),
            r.2 == self.has_half(),
            !self.is_whole() ==> self.whole_part() < HIDDEN_BIT,
            self.has_half() ==> !self.is_whole(),
    {
        let magnitude = self.magnitude_bits();
        let exponent = magnitude / HIDDEN_BIT;
        let fraction = magnitude % HIDDEN_BIT;
        proof {
            vstd::arithmetic::power2::lemma2_to64();
            vstd::arithmetic::power2::lemma2_to64_rest();
        }
        if exponent >= 1075 {
            let k = exponent - 1075;
            let significand = HIDDEN_BIT + fraction;
            if k >= 12 {
                proof {
                    let p = vstd::arithmetic::power2::pow2(k as nat);
                    if k > 12 {
                        vstd::arithmetic::power2::lemma_pow2_strictly_increases(12, k as nat);
                    }
                    assert(significand * p >= 0x1_0000_0000_0000_0000) by (nonlinear_arith)
                        requires
                            significand >= 0x0010_0000_0000_0000,
                            p >= 0x1000,
                    ;
                }
                (None, true, false)
            } else {
                let p = power_of_two(k);
                proof {
                    if k < 11 {
                        vstd::arithmetic::power2::lemma_pow2_strictly_increases(k as nat, 11);
                    }
                    assert(significand * p < 0x1_0000_0000_0000_0000) by (nonlinear_arith)
                        requires
                            0 <= significand < 0x0020_0000_0000_0000,
                            0 < p <= 0x800,
                    ;
                }
                (Some(significand * p), true, false)
            }
        } else {
            let significand = if exponent == 0 {
                fraction
            } else {
                HIDDEN_BIT + fraction
            };
            let t = if exponent == 0 {
                1074
            } else {
                1075 - exponent
            };
            if t >= 54 {
                proof {
                    let p = vstd::arithmetic::power2::pow2(t as nat);
                    if t > 54 {
                        vstd::arithmetic::power2::lemma_pow2_strictly_increases(54, t as nat);
                    }
                    vstd::arithmetic::div_mod::lemma_basic_div(significand as int, p as int);
                    vstd::arithmetic::div_mod::lemma_small_mod(significand as nat, p);
                }
                (Some(0), significand == 0, false)
            } else {
                let p = power_of_two(t);
                proof {
                    if t < 53 {
                        vstd::arithmetic::power2::lemma_pow2_strictly_increases(t as nat, 53);
                    }
                    vstd::arithmetic::power2::lemma_pow2_strictly_increases(0, t as nat);
                    assert(significand as int / p as int <= significand) by (nonlinear_arith)
                        requires
                            0 <= significand,
                            1 <= p,
                    ;
                    assert(significand as int / p as int * 2 <= significand) by (nonlinear_arith)
                        requires
                            0 <= significand,
                            2 <= p,
                    ;
                }
                let rest = significand % p;
                (Some(significand / p), rest == 0, 2 * rest >= p)
            }
        }
    }

    /// The largest whole number that is not above the value, as far as 64
    /// signed bits hold it; 0 for what is no number.
    #[verifier::when_used_as_spec(spec_floor)]
    pub fn floor(self) -> (r: i64)
        ensures
            r == self.spec_floor(),
    {
        if self.is_nan() {
            return 0;
        }
        let negative = self.bits >= SIGN_BIT;
        let (whole, is_whole, _) = self.split();
        match whole {
            Some(whole) if whole <= i64::MAX as u64 => if !negative {
                whole as i64
            } else if is_whole {
                -(whole as i64)
            } else {
                -(whole as i64) - 1
            },
            _ => if negative {
                i64::MIN
            } else {
                i64::MAX
            },
        }
    }

    /// The smallest whole number that is not below the value, as far as 64
    /// signed bits hold it; 0 for what is no number.
    #[verifier::when_used_as_spec(spec_ceil)]
    pub fn ceil(self) -> (r: i64)
        ensures
            r == self.spec_ceil(),
    {
        if self.is_nan() {
            return 0;
        }
        let negative = self.bits >= SIGN_BIT;
        let (whole, is_whole, _) = self.split();
        match whole {
            Some(whole) if whole <= i64::MAX as u64 => if negative {
                -(whole as i64)
            } else if is_whole {
                whole as i64
            } else {
                (whole as i64) + 1
            },
            _ => if negative {
                i64::MIN
            } else {
                i64::MAX
            },
        }
    }

    /// The nearest whole number, and of two that are equally near the one
    /// farther from zero, as far as 64 signed bits hold it; 0 for what is
    /// no number.
    #[verifier::when_used_as_spec(spec_round)]
    pub fn round(self) -> (r: i64)
        ensures
            r == self.spec_round(),
    {
        if self.is_nan() {
            return 0;
        }
        let negative = self.bits >= SIGN_BIT;
        let (whole, is_whole, has_half) = self.split();
        match whole {
            Some(whole) if whole <= i64::MAX as u64 => {
                let away: i64 = if has_half {
                    (whole as i64) + 1
                } else {
                    whole as i64
                };
                if negative {
                    -away
                } else {
                    away
                }
            },
            _ => if negative {
                i64::MIN
            } else {
                i64::MAX
            },
        }
    }

    /// The smallest whole number that is not below the value, as a count:
    /// 0 for what is below zero and for what is no number, and the largest
    /// count for what lies beyond it.
    #[verifier::when_used_as_spec(spec_ceil_count)]
    pub fn ceil_count(self) -> (r: usize)
        ensures
            r == self.spec_ceil_count(),
    {
        let (whole, is_whole, _) = self.split();
        if self.is_nan() || self.bits >= SIGN_BIT {
            return 0;
        }
        match whole {
            Some(whole) => {
                let up: u64 = if is_whole {
                    whole
                } else {
                    whole + 1
                };
                if up > usize::MAX as u64 {
                    usize::MAX
                } else {
                    up as usize
                }
            },
            None => usize::MAX,
        }
    }

    /// A value that is scaled up is whole: rounding it down, up or to the
    /// nearest gives the value itself.
    pub proof fn lemma_scaled_up_is_whole(self)
        requires
            self.scale() >= 0,
        ensures
            self.floor_int() == self.numerator() * vstd::arithmetic::power2::pow2(
                self.scale() as nat,
            ),
            self.ceil_int() == self.floor_int(),
            self.round_int() == self.floor_int(),
    {
        let s = self.significand();
        let p = vstd::arithmetic::power2::pow2(self.scale() as nat) as int;
        assert((-s) * p == -(s * p)) by (nonlinear_arith);
    }

    /// `floor_int` is the floor of the value: the value lies at it or above
    /// it, and below the next whole number.
    pub proof fn lemma_floor_brackets(self)
        requires
            self.scale() < 0,
        ensures
            self.floor_int() * self.denominator() <= self.numerator(),
            self.numerator() < (self.floor_int() + 1) * self.denominator(),
    {
        let s = self.significand();
        let p = self.denominator();
        vstd::arithmetic::power2::lemma_pow2_pos((-self.scale()) as nat);
        vstd::arithmetic::div_mod::lemma_fundamental_div_mod(s, p);
        vstd::arithmetic::div_mod::lemma_mod_bound(s, p);
        let q = s / p;
        let r = s % p;
        assert(s == p * q + r);
        assert(q * p == p * q && (q + 1) * p == p * q + p && (-q) * p == -(p * q) && (-q - 1) * p
            == -(p * q) - p && (-q + 1) * p == -(p * q) + p) by (nonlinear_arith);
    }

    /// `ceil_int` is the ceiling of the value: the value lies at it or
    /// below it, and above the whole number before.
    pub proof fn lemma_ceil_brackets(self)
        requires
            self.scale() < 0,
        ensures
            (self.ceil_int() - 1) * self.denominator() < self.numerator(),
            self.numerator() <= self.ceil_int() * self.denominator(),
    {
        let s = self.significand();
        let p = self.denominator();
        vstd::arithmetic::power2::lemma_pow2_pos((-self.scale()) as nat);
        vstd::arithmetic::div_mod::lemma_fundamental_div_mod(s, p);
        vstd::arithmetic::div_mod::lemma_mod_bound(s, p);
        let q = s / p;
        let r = s % p;
        assert(s == p * q + r);
        assert(q * p == p * q && (q + 1) * p == p * q + p && (-q) * p == -(p * q) && (-q - 1) * p
            == -(p * q) - p && (q - 1) * p == p * q - p) by (nonlinear_arith);
    }

    /// `round_int` is the nearest whole number: the value lies no farther
    /// than a half from it, and where it lies a half from it, the value is
    /// the nearer to zero.
    pub proof fn lemma_round_is_nearest(self)
        requires
            self.scale() < 0,
        ensures
            2 * (self.round_int() * self.denominator() - self.numerator()) <= self.denominator(),
            2 * (self.numerator() - self.round_int() * self.denominator()) <= self.denominator(),
            2 * (self.numerator() - self.round_int() * self.denominator()) == self.denominator()
                ==> self.is_negative(),
            2 * (self.round_int() * self.denominator() - self.numerator()) == self.denominator()
                ==> !self.is_negative(),
    {
        let s = self.significand();
        let p = self.denominator();
        vstd::arithmetic::power2::lemma_pow2_pos((-self.scale()) as nat);
        vstd::arithmetic::div_mod::lemma_fundamental_div_mod(s, p);
        vstd::arithmetic::div_mod::lemma_mod_bound(s, p);
        let q = s / p;
        let r = s % p;
        assert(s == p * q + r);
        assert(q * p == p * q && (q + 1) * p == p * q + p && (-q) * p == -(p * q) && (-(q + 1)) * p
            == -(p * q) - p) by (nonlinear_arith);
    }
}

} // verus!
