//! Single-precision numbers held by their bit patterns.
//!
//! The renderer never computes with the numbers it passes to the GPU; it only
//! orders them and asks whether two of them are close. Both questions are
//! answered here on the IEEE 754 binary32 encoding, in integer arithmetic.

use vstd::arithmetic::power2::*;
use vstd::prelude::*;

verus! {

/// Bit pattern of positive zero.
pub const ZERO_BITS: u32 = 0;

/// Bit pattern of one.
pub const ONE_BITS: u32 = 0x3f80_0000;

/// Bit pattern of positive infinity; every larger magnitude is a NaN.
pub const INFINITY_BITS: u32 = 0x7f80_0000;

/// The sign bit.
pub const SIGN_BIT: u32 = 0x8000_0000;

/// An IEEE 754 binary32 number, held by its bit pattern.
///
/// Two scalars are equal when their bits are: the two zeros differ, and a
/// NaN equals itself. How the numbers compare is told by `below` and `near`.
#[derive(Clone, Copy, Debug, PartialEq, Eq, Hash, Structural)]
pub struct Scalar {
    pub bits: u32,
}

/// Two scalars are close when their exact values, measured in units of
/// 2^-149, differ by less than this: 2^126 - 2^101, that is 2^-23 - 2^-48.
///
/// Every exact difference below the bound rounds (to nearest, ties to even)
/// to a number below 2^-23, and every other one rounds to 2^-23 or above, so
/// this is the test "the rounded difference is smaller than the machine
/// epsilon" without the rounding.
pub open spec fn near_limit() -> int {
    pow2(126) - pow2(101)
}

impl Scalar {
    /// The encoding without its sign bit.
    pub open spec fn magnitude(self) -> int {
        self.bits as int % 0x8000_0000
    }

    /// Whether the sign bit is set (true of -0.0 too).
    pub open spec fn negative(self) -> bool {
        self.bits >= 0x8000_0000
    }

    pub open spec fn nan(self) -> bool {
        self.magnitude() > 0x7f80_0000
    }

    /// Neither a NaN nor an infinity.
    pub open spec fn finite(self) -> bool {
        self.magnitude() < 0x7f80_0000
    }

    /// Position on the number line: for two numbers that are not NaN,
    /// the smaller number has the smaller rank, and only the two zeros share one.
    pub open spec fn rank(self) -> int {
        if self.negative() {
            -self.magnitude()
        } else {
            self.magnitude()
        }
    }

    /// The strict order of the numbers; false whenever a NaN takes part.
    pub open spec fn below(self, other: Scalar) -> bool {
        !self.nan() && !other.nan() && self.rank() < other.rank()
    }

    /// Strictly greater than zero.
    pub open spec fn positive(self) -> bool {
        !self.nan() && self.rank() > 0
    }

    /// The stored exponent field.
    pub open spec fn exponent(self) -> int {
        self.magnitude() / 0x80_0000
    }

    /// The stored fraction field.
    pub open spec fn fraction(self) -> int {
        self.magnitude() % 0x80_0000
    }

    /// The integer significand, with the implicit leading bit of a normal number.
    pub open spec fn significand(self) -> int {
        if self.exponent() == 0 {
            self.fraction()
        } else {
            0x80_0000 + self.fraction()
        }
    }

    /// The power of two by which the significand is scaled, counted from 2^-149.
    pub open spec fn scale(self) -> nat {
        if self.exponent() == 0 {
            0
        } else {
            (self.exponent() - 1) as nat
        }
    }

    /// The exact value of a finite number, in units of 2^-149.
    pub open spec fn scaled(self) -> int {
        let size = self.significand() * pow2(self.scale());
        if self.negative() {
            -size
        } else {
            size
        }
    }

    /// Whether two numbers differ by less than the machine epsilon, 2^-23,
    /// when the difference is computed in single precision. False whenever a
    /// NaN or an infinity takes part.
    pub open spec fn near(self, other: Scalar) -> bool {
        &&& self.finite()
        &&& other.finite()
        &&& -near_limit() < self.scaled() - other.scaled() < near_limit()
    }

    pub fn new(bits: u32) -> (scalar: Scalar)
        ensures
            scalar.bits == bits,
    {
        Scalar { bits }
    }

    pub fn zero() -> (scalar: Scalar)
        ensures
            scalar.bits == ZERO_BITS,
    {
        Scalar { bits: ZERO_BITS }
    }

    pub fn one() -> (scalar: Scalar)
        ensures
            scalar.bits == ONE_BITS,
    {
        Scalar { bits: ONE_BITS }
    }

    fn magnitude_bits(self) -> (m: u32)
        ensures
            m == self.magnitude(),
    {
        self.bits % SIGN_BIT
    }

    pub fn is_negative(self) -> (r: bool)
        ensures
            r == self.negative(),
    {
        self.bits >= SIGN_BIT
    }

    pub fn is_nan(self) -> (r: bool)
        ensures
            r == self.nan(),
    {
        self.magnitude_bits() > INFINITY_BITS
    }

    pub fn is_finite(self) -> (r: bool)
        ensures
            r == self.finite(),
    {
        self.magnitude_bits() < INFINITY_BITS
    }

    /// `self < other` as the numbers compare.
    pub fn lt(self, other: Scalar) -> (r: bool)
        ensures
            r == self.below(other),
    {
        if self.is_nan() || other.is_nan() {
            return false;
        }
        let a: u32 = self.magnitude_bits();
        let b: u32 = other.magnitude_bits();
        if self.is_negative() {
            if other.is_negative() {
                b < a
            } else {
                a > 0 || b > 0
            }
        } else {
            !other.is_negative() && a < b
        }
    }

    /// `self > 0.0` as the numbers compare.
    pub fn is_positive(self) -> (r: bool)
        ensures
            r == self.positive(),
    {
        !self.is_nan() && !self.is_negative() && self.magnitude_bits() > 0
    }

    /// Significand and scale of a finite number.
    fn parts(self) -> (parts: (u32, u32))
        requires
            self.finite(),
        ensures
            parts.0 == self.significand(),
            parts.1 == self.scale(),
            parts.0 < 0x100_0000,
            parts.1 <= 253,
            parts.1 > 0 ==> parts.0 >= 0x80_0000,
    {
        let magnitude: u32 = self.magnitude_bits();
        let exponent: u32 = magnitude / 0x80_0000;
        let fraction: u32 = magnitude % 0x80_0000;
        if exponent == 0 {
            (fraction, 0)
        } else {
            (0x80_0000 + fraction, exponent - 1)
        }
    }

    /// `(self - other).abs() < EPSILON` as single-precision arithmetic computes it.
    pub fn approx_eq(self, other: Scalar) -> (r: bool)
        ensures
            r == self.near(other),
    {
        if !self.is_finite() || !other.is_finite() {
            return false;
        }
        let (ma, ea) = self.parts();
        let (mb, eb) = other.parts();
        let hi: u32 = if ea >= eb { ea } else { eb };
        let lo: u32 = if ea >= eb { eb } else { ea };
        // Both values are counted in units of 2^base, chosen so that the
        // larger one still fits in 127 bits.
        let base: u32 = if hi > 103 { hi - 103 } else { 0 };
        let same_sign: bool = self.is_negative() == other.is_negative();
        if lo < base {
            proof {
                if ea >= eb {
                    lemma_far_apart(ma as int, ea as nat, mb as int, eb as nat);
                } else {
                    lemma_far_apart(mb as int, eb as nat, ma as int, ea as nat);
                }
            }
            return false;
        }
        let pa: u128 = power_of_two(ea - base);
        let pb: u128 = power_of_two(eb - base);
        proof {
            lemma_units_fit(ma as int, (ea - base) as nat);
            lemma_units_fit(mb as int, (eb - base) as nat);
            lemma_pow2_adds((ea - base) as nat, base as nat);
            lemma_pow2_adds((eb - base) as nat, base as nat);
            lemma_pow2_pos(base as nat);
        }
        let ua: u128 = (ma as u128) * pa;
        let ub: u128 = (mb as u128) * pb;
        let diff: u128 = if same_sign {
            if ua >= ub {
                ua - ub
            } else {
                ub - ua
            }
        } else {
            ua + ub
        };
        proof {
            let unit = pow2(base as nat) as int;
            assert(self.significand() * pow2(self.scale()) == ua * unit) by (nonlinear_arith)
                requires
                    ua == ma * pa,
                    pow2(self.scale()) == pa * unit,
                    self.significand() == ma,
            ;
            assert(other.significand() * pow2(other.scale()) == ub * unit) by (nonlinear_arith)
                requires
                    ub == mb * pb,
                    pow2(other.scale()) == pb * unit,
                    other.significand() == mb,
            ;
            let a = ua * unit;
            let b = ub * unit;
            assert((ua - ub) * unit == a - b && (ub - ua) * unit == b - a && (ua + ub) * unit == a
                + b) by (nonlinear_arith)
                requires
                    a == ua * unit,
                    b == ub * unit,
            ;
            let gap = self.scaled() - other.scaled();
            assert(gap == diff * unit || -gap == diff * unit);
            lemma_limit_in_units(diff as int, base as nat);
        }
        if base <= 101 {
            let upper: u128 = power_of_two(126 - base);
            let lower: u128 = power_of_two(101 - base);
            proof {
                lemma_pow2_strictly_increases((101 - base) as nat, (126 - base) as nat);
            }
            diff < upper - lower
        } else if base > 126 {
            diff == 0
        } else {
            diff < power_of_two(126 - base)
        }
    }
}

/// Every finite number is close to itself; a NaN or an infinity is close to nothing.
pub proof fn lemma_near_reflexive(a: Scalar)
    ensures
        a.near(a) == a.finite(),
{
    lemma_pow2_strictly_increases(101, 126);
}

/// Closeness does not depend on the order of the two numbers.
pub proof fn lemma_near_symmetric(a: Scalar, b: Scalar)
    ensures
        a.near(b) == b.near(a),
{
}

/// The spec of the comparison that closes `approx_eq`, over a difference
/// counted in units of 2^base.
pub open spec fn within_limit(diff: int, base: nat) -> bool {
    if base <= 101 {
        diff < pow2((126 - base) as nat) - pow2((101 - base) as nat)
    } else if base > 126 {
        diff == 0
    } else {
        diff < pow2((126 - base) as nat)
    }
}

/// 2^n for an exponent that keeps the result in 127 bits.
fn power_of_two(n: u32) -> (p: u128)
    requires
        n <= 126,
    ensures
        p == pow2(n as nat),
        p <= pow2(126),
{
    let mut p: u128 = 1;
    let mut i: u32 = 0;
    proof {
        lemma2_to64();
        lemma_pow2_126();
    }
    while i < n
        invariant
            i <= n <= 126,
            p == pow2(i as nat),
            pow2(126) == 0x4000_0000_0000_0000_0000_0000_0000_0000,
        decreases n - i,
    {
        proof {
            lemma_pow2_unfold((i + 1) as nat);
            if i + 1 < 126 {
                lemma_pow2_strictly_increases((i + 1) as nat, 126);
            }
        }
        p = p * 2;
        i = i + 1;
    }
    proof {
        if n < 126 {
            lemma_pow2_strictly_increases(n as nat, 126);
        }
    }
    p
}

proof fn lemma_pow2_126()
    ensures
        pow2(126) == 0x4000_0000_0000_0000_0000_0000_0000_0000,
        pow2(101) == 0x20_0000_0000_0000_0000_0000_0000,
        pow2(103) == 0x80_0000_0000_0000_0000_0000_0000,
        pow2(24) == 0x100_0000,
        pow2(23) == 0x80_0000,
{
    lemma2_to64();
    lemma_pow2_adds(64, 32);
    lemma_pow2_adds(96, 5);
    lemma_pow2_adds(96, 7);
    lemma_pow2_adds(96, 30);
}

/// A significand scaled by at most 2^103 fits in 127 bits.
proof fn lemma_units_fit(m: int, e: nat)
    requires
        0 <= m < 0x100_0000,
        e <= 103,
    ensures
        0 <= m * pow2(e) < 0x8000_0000_0000_0000_0000_0000_0000_0000,
{
    lemma_pow2_126();
    if e < 103 {
        lemma_pow2_strictly_increases(e, 103);
    }
    lemma_pow2_pos(e);
    assert(0 <= m * pow2(e) < 0x8000_0000_0000_0000_0000_0000_0000_0000) by (nonlinear_arith)
        requires
            0 <= m < 0x100_0000,
            0 < pow2(e) <= 0x80_0000_0000_0000_0000_0000_0000,
    ;
}

/// Where one number's scale is more than 103 binary places above the
/// other's, the two are at least 2^126 units apart, whatever their signs.
proof fn lemma_far_apart(m_hi: int, e_hi: nat, m_lo: int, e_lo: nat)
    requires
        0x80_0000 <= m_hi < 0x100_0000,
        0 <= m_lo < 0x100_0000,
        e_hi > 103,
        e_lo + 103 < e_hi,
    ensures
        m_hi * pow2(e_hi) - m_lo * pow2(e_lo) >= near_limit(),
        m_hi * pow2(e_hi) + m_lo * pow2(e_lo) >= near_limit(),
{
    lemma_pow2_126();
    let low = pow2(e_lo) as int;
    let step = pow2((e_hi - e_lo) as nat) as int;
    lemma_pow2_adds((e_hi - e_lo) as nat, e_lo);
    lemma_pow2_pos(e_lo);
    lemma_pow2_pos(101);
    if e_hi - e_lo > 104 {
        lemma_pow2_strictly_increases(104, (e_hi - e_lo) as nat);
    }
    lemma_pow2_adds(103, 1);
    lemma2_to64();
    assert(step >= 0x100_0000_0000_0000_0000_0000_0000);
    assert(m_hi * (step * low) - m_lo * low >= 0x4000_0000_0000_0000_0000_0000_0000_0000)
        by (nonlinear_arith)
        requires
            0x80_0000 <= m_hi,
            0 <= m_lo < 0x100_0000,
            low >= 1,
            step >= 0x100_0000_0000_0000_0000_0000_0000,
    ;
    assert(m_lo * low >= 0) by (nonlinear_arith)
        requires
            m_lo >= 0,
            low >= 1,
    ;
}

/// Comparing a difference of `diff` units of 2^base with the limit comes
/// down to comparing `diff` with a power of two, or with zero.
proof fn lemma_limit_in_units(diff: int, base: nat)
    requires
        0 <= diff,
        base <= 150,
    ensures
        diff * pow2(base) < near_limit() <==> within_limit(diff, base),
{
    lemma_pow2_126();
    let unit = pow2(base) as int;
    lemma_pow2_pos(base);
    if base <= 101 {
        let a = pow2((126 - base) as nat) as int;
        let b = pow2((101 - base) as nat) as int;
        lemma_pow2_adds((126 - base) as nat, base);
        lemma_pow2_adds((101 - base) as nat, base);
        assert(diff * unit < a * unit - b * unit <==> diff < a - b) by (nonlinear_arith)
            requires
                unit > 0,
        ;
    } else {
        // The unit is a multiple of 2^102, the limit is 2^101 * (2^25 - 1):
        // below the limit means below 2^126.
        let half = pow2((base - 102) as nat) as int;
        lemma_pow2_adds((base - 102) as nat, 102);
        lemma_pow2_adds(101, 1);
        lemma_pow2_adds(101, 25);
        lemma_pow2_pos((base - 102) as nat);
        lemma2_to64();
        let low = pow2(101) as int;
        let big = pow2(126) as int;
        let halves = diff * half;
        assert(diff * unit == (2 * halves) * low) by (nonlinear_arith)
            requires
                unit == half * (2 * low),
                halves == diff * half,
        ;
        assert(near_limit() == 0x1ff_ffff * low);
        assert(big == 0x200_0000 * low);
        assert((2 * halves) * low < 0x1ff_ffff * low <==> 2 * halves < 0x1ff_ffff)
            by (nonlinear_arith)
            requires
                low > 0,
        ;
        assert((2 * halves) * low < 0x200_0000 * low <==> 2 * halves < 0x200_0000)
            by (nonlinear_arith)
            requires
                low > 0,
        ;
        assert(diff * unit < near_limit() <==> diff * unit < big);
        if base > 126 {
            lemma_pow2_strictly_increases(126, base);
            assert(diff * unit < big <==> diff == 0) by (nonlinear_arith)
                requires
                    unit > big,
                    big > 0,
                    diff >= 0,
            ;
        } else {
            let rest = pow2((126 - base) as nat) as int;
            lemma_pow2_adds((126 - base) as nat, base);
            assert(diff * unit < rest * unit <==> diff < rest) by (nonlinear_arith)
                requires
                    unit > 0,
            ;
        }
    }
}

} // verus!
