//! Binary floating-point numbers as bit patterns.
//!
//! Coordinates, lengths and angles reach the host as IEEE 754 binary64 values.
//! The host never computes with them: it classifies and compares them, and both
//! are decided by the bit pattern alone.

use vstd::arithmetic::power2::{lemma_pow2_adds, lemma_pow2_pos, lemma_pow2_strictly_increases, lemma2_to64, pow2};
use vstd::prelude::*;

verus! {

/// The bit that holds the sign.
pub const SIGN_BIT: u64 = 0x8000_0000_0000_0000;

/// The smallest magnitude pattern that is not a finite number.
pub const INFINITY_BITS: u64 = 0x7ff0_0000_0000_0000;

/// The number of fraction patterns for each exponent, `2^52`.
pub const FRACTIONS: u64 = 0x0010_0000_0000_0000;

/// The bits of `1.0`.
pub const ONE_BITS: u64 = 0x3ff0_0000_0000_0000;

/// The bits of the number nearest `1e-6`.
pub const LOOSE_BITS: u64 = 0x3eb0_c6f7_a0b5_ed8d;

/// The bits of the number nearest `1e-9`.
pub const TIGHT_BITS: u64 = 0x3e11_2e0b_e826_d695;

/// The bits of the number nearest `1e-12`.
pub const TINY_BITS: u64 = 0x3d71_9799_812d_ea11;

/// An IEEE 754 binary64 value, held as its bit pattern.
#[derive(Clone, Copy, PartialEq, Eq, Structural, Debug)]
pub struct Scalar {
    pub bits: u64,
}

/// The magnitude that a sign-less bit pattern stands for, in units of the least
/// positive number (`2^-1074`).
pub open spec fn magnitude(pattern: int) -> int {
    let exponent = pattern / (FRACTIONS as int);
    let fraction = pattern % (FRACTIONS as int);
    if exponent == 0 {
        fraction
    } else {
        (FRACTIONS + fraction) * pow2((exponent - 1) as nat)
    }
}

/// A larger pattern stands for a larger magnitude.
pub proof fn magnitude_increases(a: int, b: int)
    requires
        0 <= a < b,
    ensures
        0 <= magnitude(a) < magnitude(b),
{
    let n = FRACTIONS as int;
    let ea = a / n;
    let eb = b / n;
    let fa = a % n;
    let fb = b % n;
    assert(a == ea * n + fa && b == eb * n + fb && 0 <= fa < n && 0 <= fb < n) by (nonlinear_arith)
        requires
            n == 0x0010_0000_0000_0000,
            ea == a / n,
            eb == b / n,
            fa == a % n,
            fb == b % n,
    ;
    assert(ea <= eb && ea >= 0) by (nonlinear_arith)
        requires
            a < b,
            0 <= a,
            n == 0x0010_0000_0000_0000,
            ea == a / n,
            eb == b / n,
    ;
    if ea == 0 {
        if eb > 0 {
            lemma_pow2_pos((eb - 1) as nat);
            let p = pow2((eb - 1) as nat) as int;
            assert((n + fb) * p >= n) by (nonlinear_arith)
                requires
                    p >= 1,
                    n > 0,
                    fb >= 0,
            ;
        }
    } else {
        let pa = pow2((ea - 1) as nat) as int;
        let pb = pow2((eb - 1) as nat) as int;
        lemma_pow2_pos((ea - 1) as nat);
        lemma_pow2_pos((eb - 1) as nat);
        if ea == eb {
            assert((n + fa) * pa < (n + fb) * pa && (n + fa) * pa >= 0) by (nonlinear_arith)
                requires
                    fa < fb,
                    pa >= 1,
                    n > 0,
                    fa >= 0,
            ;
        } else {
            lemma_pow2_adds((ea - 1) as nat, (eb - ea) as nat);
            let q = pow2((eb - ea) as nat) as int;
            lemma2_to64();
            if eb - ea > 1 {
                lemma_pow2_strictly_increases(1, (eb - ea) as nat);
            }
            assert((n + fa) * pa < (n + fb) * pb && (n + fa) * pa >= 0) by (nonlinear_arith)
                requires
                    0 <= fa < n,
                    0 <= fb,
                    pa >= 1,
                    q >= 2,
                    pb == pa * q,
            ;
        }
    }
}

/// Patterns are ordered as their magnitudes are.
pub proof fn magnitude_order(a: int, b: int)
    requires
        0 <= a,
        0 <= b,
    ensures
        (a < b) == (magnitude(a) < magnitude(b)),
        (a == b) == (magnitude(a) == magnitude(b)),
        magnitude(a) >= 0,
        magnitude(0) == 0,
{
    if a < b {
        magnitude_increases(a, b);
    } else if b < a {
        magnitude_increases(b, a);
    }
    magnitude_increases(a, a + 1);
}

/// The magnitude of a pattern given by its exponent and its fraction.
proof fn magnitude_of(pattern: int, exponent: int, fraction: int)
    requires
        exponent >= 1,
        0 <= fraction < FRACTIONS,
        pattern == exponent * FRACTIONS + fraction,
    ensures
        magnitude(pattern) == (FRACTIONS + fraction) * pow2((exponent - 1) as nat),
{
    let n = FRACTIONS as int;
    assert(pattern / n == exponent && pattern % n == fraction) by (nonlinear_arith)
        requires
            pattern == exponent * n + fraction,
            0 <= fraction < n,
    ;
}

/// The patterns next to one at which the distance from one passes `1e-6` and `1e-9`.
proof fn bounds_around_one()
    ensures
        ({
            let one = magnitude(ONE_BITS as int);
            let loose = magnitude(LOOSE_BITS as int);
            let tight = magnitude(TIGHT_BITS as int);
            &&& one - magnitude(0x3fef_fffd_e721_0bea) < loose
            &&& one - magnitude(0x3fef_fffd_e721_0be9) > loose
            &&& magnitude(0x3ff0_0001_0c6f_7a0b) - one < loose
            &&& magnitude(0x3ff0_0001_0c6f_7a0c) - one > loose
            &&& one - magnitude(0x3fef_ffff_ff76_8fa1) < tight
            &&& one - magnitude(0x3fef_ffff_ff76_8fa0) > tight
            &&& magnitude(0x3ff0_0000_0044_b82f) - one < tight
            &&& magnitude(0x3ff0_0000_0044_b830) - one > tight
        }),
{
    let p = pow2(992) as int;
    lemma2_to64();
    lemma_pow2_adds(992, 10);
    lemma_pow2_adds(992, 29);
    lemma_pow2_adds(992, 30);
    lemma_pow2_pos(992);
    magnitude_of(ONE_BITS as int, 1023, 0);
    magnitude_of(LOOSE_BITS as int, 1003, 0x0_c6f7_a0b5_ed8d);
    magnitude_of(TIGHT_BITS as int, 993, 0x1_2e0b_e826_d695);
    magnitude_of(0x3fef_fffd_e721_0bea, 1022, 0xf_fffd_e721_0bea);
    magnitude_of(0x3fef_fffd_e721_0be9, 1022, 0xf_fffd_e721_0be9);
    magnitude_of(0x3ff0_0001_0c6f_7a0b, 1023, 0x0_0001_0c6f_7a0b);
    magnitude_of(0x3ff0_0001_0c6f_7a0c, 1023, 0x0_0001_0c6f_7a0c);
    magnitude_of(0x3fef_ffff_ff76_8fa1, 1022, 0xf_ffff_ff76_8fa1);
    magnitude_of(0x3fef_ffff_ff76_8fa0, 1022, 0xf_ffff_ff76_8fa0);
    magnitude_of(0x3ff0_0000_0044_b82f, 1023, 0x0_0000_0044_b82f);
    magnitude_of(0x3ff0_0000_0044_b830, 1023, 0x0_0000_0044_b830);
}

/// The numbers that differ from one by at most `1e-6` are those between two bit
/// patterns.
pub proof fn unit_patterns(s: Scalar)
    ensures
        s.around_one(Scalar { bits: LOOSE_BITS }) == (0x3fef_fffd_e721_0bea <= s.bits
            <= 0x3ff0_0001_0c6f_7a0b),
        s.well_around_one(Scalar { bits: LOOSE_BITS }) == s.around_one(
            Scalar { bits: LOOSE_BITS },
        ),
{
    bounds_around_one();
    magnitude_order(s.pattern(), 0x3fef_fffd_e721_0bea);
    magnitude_order(s.pattern(), 0x3fef_fffd_e721_0be9);
    magnitude_order(s.pattern(), 0x3ff0_0001_0c6f_7a0b);
    magnitude_order(s.pattern(), 0x3ff0_0001_0c6f_7a0c);
    magnitude_order(LOOSE_BITS as int, ONE_BITS as int);
}

/// The numbers that differ from one by at most `1e-9` are those between two bit
/// patterns.
pub proof fn one_patterns(s: Scalar)
    ensures
        s.around_one(Scalar { bits: TIGHT_BITS }) == (0x3fef_ffff_ff76_8fa1 <= s.bits
            <= 0x3ff0_0000_0044_b82f),
        s.well_around_one(Scalar { bits: TIGHT_BITS }) == s.around_one(
            Scalar { bits: TIGHT_BITS },
        ),
{
    bounds_around_one();
    magnitude_order(s.pattern(), 0x3fef_ffff_ff76_8fa1);
    magnitude_order(s.pattern(), 0x3fef_ffff_ff76_8fa0);
    magnitude_order(s.pattern(), 0x3ff0_0000_0044_b82f);
    magnitude_order(s.pattern(), 0x3ff0_0000_0044_b830);
    magnitude_order(TIGHT_BITS as int, ONE_BITS as int);
}

impl Scalar {
    /// The bit pattern without the sign.
    pub open spec fn pattern(self) -> int {
        if self.bits >= SIGN_BIT {
            self.bits - SIGN_BIT
        } else {
            self.bits as int
        }
    }

    /// Neither an infinity nor a NaN.
    pub open spec fn finite(self) -> bool {
        self.pattern() < INFINITY_BITS
    }

    /// Not a number.
    pub open spec fn nan(self) -> bool {
        self.pattern() > INFINITY_BITS
    }

    /// The number, in units of the least positive number. An infinity counts as
    /// a number beyond every finite one, which is how comparisons treat it.
    pub open spec fn value(self) -> int {
        if self.bits >= SIGN_BIT {
            -magnitude(self.pattern())
        } else {
            magnitude(self.pattern())
        }
    }

    /// `self < other`, false where either is not a number.
    pub open spec fn below(self, other: Scalar) -> bool {
        !self.nan() && !other.nan() && self.value() < other.value()
    }

    /// `self <= other`, false where either is not a number.
    pub open spec fn at_most(self, other: Scalar) -> bool {
        !self.nan() && !other.nan() && self.value() <= other.value()
    }

    /// The number without its sign.
    pub open spec fn absolute(self) -> Scalar {
        Scalar { bits: self.pattern() as u64 }
    }

    /// The number differs from one by at most `tolerance`. The difference of a
    /// binary64 number and one is exact wherever it is that small.
    pub open spec fn around_one(self, tolerance: Scalar) -> bool {
        let distance = self.value() - Scalar { bits: ONE_BITS }.value();
        !self.nan() && -tolerance.value() <= distance <= tolerance.value()
    }

    /// The number differs from one by less than `tolerance`.
    pub open spec fn well_around_one(self, tolerance: Scalar) -> bool {
        let distance = self.value() - Scalar { bits: ONE_BITS }.value();
        !self.nan() && -tolerance.value() < distance < tolerance.value()
    }

    /// Strictly above zero.
    pub open spec fn positive(self) -> bool {
        !self.nan() && self.value() > 0
    }

    /// Zero, with either sign.
    pub open spec fn zero(self) -> bool {
        self.pattern() == 0
    }

    /// Equal as numbers; a NaN equals nothing.
    pub open spec fn equal(self, other: Scalar) -> bool {
        !self.nan() && !other.nan() && self.value() == other.value()
    }

    /// The number with the other sign.
    pub open spec fn opposite(self) -> Scalar {
        Scalar {
            bits: if self.bits >= SIGN_BIT {
                (self.bits - SIGN_BIT) as u64
            } else {
                (self.bits + SIGN_BIT) as u64
            },
        }
    }

    /// An edit left the number alone: the two are equal as numbers, or are the
    /// very same bits.
    pub open spec fn same(self, other: Scalar) -> bool {
        self.bits == other.bits || self.equal(other)
    }

    #[verifier::when_used_as_spec(finite)]
    pub fn is_finite(self) -> (result: bool)
        ensures
            result == self.finite(),
    {
        self.unsigned() < INFINITY_BITS
    }

    fn unsigned(self) -> (result: u64)
        ensures
            result == self.pattern(),
    {
        if self.bits >= SIGN_BIT {
            self.bits - SIGN_BIT
        } else {
            self.bits
        }
    }

    #[verifier::when_used_as_spec(nan)]
    pub fn is_nan(self) -> (result: bool)
        ensures
            result == self.nan(),
    {
        self.unsigned() > INFINITY_BITS
    }

    #[verifier::when_used_as_spec(absolute)]
    pub fn abs(self) -> (result: Scalar)
        ensures
            result == self.absolute(),
            result.nan() == self.nan(),
            result.value() == (if self.value() < 0 { -self.value() } else { self.value() }),
    {
        proof {
            magnitude_order(self.pattern(), 0);
        }
        Scalar { bits: self.unsigned() }
    }

    /// `self < other`
    #[verifier::when_used_as_spec(below)]
    pub fn lt(self, other: Scalar) -> (result: bool)
        ensures
            result == self.below(other),
    {
        proof {
            magnitude_order(self.pattern(), other.pattern());
            magnitude_order(other.pattern(), self.pattern());
            magnitude_order(self.pattern(), 0);
            magnitude_order(other.pattern(), 0);
        }
        if self.is_nan() || other.is_nan() {
            return false;
        }
        let a: u64 = self.unsigned();
        let b: u64 = other.unsigned();
        let negative = self.bits >= SIGN_BIT;
        let other_negative = other.bits >= SIGN_BIT;
        if negative && other_negative {
            b < a
        } else if negative {
            a > 0 || b > 0
        } else if other_negative {
            false
        } else {
            a < b
        }
    }

    /// `self <= other`
    #[verifier::when_used_as_spec(at_most)]
    pub fn le(self, other: Scalar) -> (result: bool)
        ensures
            result == self.at_most(other),
    {
        !self.is_nan() && !other.is_nan() && !other.lt(self)
    }

    /// `self == other`
    #[verifier::when_used_as_spec(equal)]
    pub fn equals(self, other: Scalar) -> (result: bool)
        ensures
            result == self.equal(other),
    {
        self.le(other) && other.le(self)
    }

    /// Whether an edit from `self` to `other` left the number alone.
    #[verifier::when_used_as_spec(same)]
    pub fn unchanged(self, other: Scalar) -> (result: bool)
        ensures
            result == self.same(other),
    {
        self.bits == other.bits || self.equals(other)
    }

    /// `|self - 1| <= 1e-6`. No number lies at that distance exactly.
    pub fn is_unit(self) -> (result: bool)
        ensures
            result == self.around_one(Scalar { bits: LOOSE_BITS }),
            result == self.well_around_one(Scalar { bits: LOOSE_BITS }),
    {
        proof {
            bounds_around_one();
            magnitude_order(self.pattern(), 0x3fef_fffd_e721_0bea);
            magnitude_order(self.pattern(), 0x3fef_fffd_e721_0be9);
            magnitude_order(self.pattern(), 0x3ff0_0001_0c6f_7a0b);
            magnitude_order(self.pattern(), 0x3ff0_0001_0c6f_7a0c);
            magnitude_order(LOOSE_BITS as int, ONE_BITS as int);
        }
        0x3fef_fffd_e721_0bea <= self.bits && self.bits <= 0x3ff0_0001_0c6f_7a0b
    }

    /// `|self - 1| <= 1e-9`. No number lies at that distance exactly.
    pub fn is_one(self) -> (result: bool)
        ensures
            result == self.around_one(Scalar { bits: TIGHT_BITS }),
            result == self.well_around_one(Scalar { bits: TIGHT_BITS }),
    {
        proof {
            bounds_around_one();
            magnitude_order(self.pattern(), 0x3fef_ffff_ff76_8fa1);
            magnitude_order(self.pattern(), 0x3fef_ffff_ff76_8fa0);
            magnitude_order(self.pattern(), 0x3ff0_0000_0044_b82f);
            magnitude_order(self.pattern(), 0x3ff0_0000_0044_b830);
            magnitude_order(TIGHT_BITS as int, ONE_BITS as int);
        }
        0x3fef_ffff_ff76_8fa1 <= self.bits && self.bits <= 0x3ff0_0000_0044_b82f
    }

    #[verifier::when_used_as_spec(positive)]
    pub fn is_positive(self) -> (result: bool)
        ensures
            result == self.positive(),
    {
        proof {
            magnitude_order(self.pattern(), 0);
        }
        0 < self.bits && self.bits <= INFINITY_BITS
    }

    #[verifier::when_used_as_spec(zero)]
    pub fn is_zero(self) -> (result: bool)
        ensures
            result == self.zero(),
            result == (!self.nan() && self.value() == 0),
    {
        proof {
            magnitude_order(self.pattern(), 0);
        }
        self.unsigned() == 0
    }

    /// The number equal to an integer.
    pub fn from_u32(integer: u32) -> (result: Scalar)
        ensures
            result.finite(),
            result.value() == integer * pow2(1074),
    {
        if integer == 0 {
            proof {
                magnitude_order(0, 0);
            }
            return Scalar { bits: 0 };
        }
        let mut significand: u64 = integer as u64;
        let mut exponent: u64 = 1075;
        proof {
            lemma2_to64();
        }
        while significand < FRACTIONS
            invariant
                1 <= significand < 2 * FRACTIONS,
                1000 <= exponent <= 1075,
                significand >= pow2((1075 - exponent) as nat),
                integer * pow2(1074) == significand * pow2((exponent - 1) as nat),
            decreases exponent,
        {
            proof {
                lemma_pow2_adds((exponent - 2) as nat, 1);
                lemma_pow2_adds((1075 - exponent) as nat, 1);
                lemma2_to64();
                lemma_pow2_adds(32, 20);
                if 1075 - exponent > 52 {
                    lemma_pow2_strictly_increases(52, (1075 - exponent) as nat);
                }
                assert((significand * 2) * pow2((exponent - 2) as nat) == significand * (2 * pow2((exponent - 2) as nat))) by (nonlinear_arith);
            }
            significand = significand * 2;
            exponent = exponent - 1;
        }
        let bits: u64 = exponent * FRACTIONS + (significand - FRACTIONS);
        proof {
            magnitude_of(bits as int, exponent as int, significand - FRACTIONS);
        }
        Scalar { bits }
    }

    /// `-self`
    #[verifier::when_used_as_spec(opposite)]
    pub fn negate(self) -> (result: Scalar)
        ensures
            result == self.opposite(),
            result.value() == -self.value(),
    {
        if self.bits >= SIGN_BIT {
            Scalar { bits: self.bits - SIGN_BIT }
        } else {
            Scalar { bits: self.bits + SIGN_BIT }
        }
    }
}

} // verus!
