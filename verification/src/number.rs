//! Binary64 numbers held as bit patterns.
//!
//! Arithmetic is carried out by the `rustc_apfloat` software implementation of
//! IEEE-754; tests on sign, zero, NaN and order are decided here on the bits.

use rustc_apfloat::ieee::{Double, Quad};
use rustc_apfloat::{Float, FloatConvert, Round};
use vstd::prelude::*;

verus! {

/// The bit that holds the sign.
pub const SIGN_BIT: u64 = 0x8000_0000_0000_0000;

/// The pattern of positive infinity; every larger magnitude is a NaN.
pub const INFINITY_BITS: u64 = 0x7FF0_0000_0000_0000;

/// The pattern of `1.0`.
pub const ONE_BITS: u64 = 0x3FF0_0000_0000_0000;

/// The pattern of `0.5`.
pub const HALF_BITS: u64 = 0x3FE0_0000_0000_0000;

/// The pattern of the machine epsilon, `2^-52`.
pub const EPSILON_BITS: u64 = 0x3CB0_0000_0000_0000;

/// The bits of the rounded sum of two binary64 numbers.
pub uninterp spec fn ieee_sum(a: u64, b: u64) -> u64;

/// The bits of the rounded difference of two binary64 numbers.
pub uninterp spec fn ieee_difference(a: u64, b: u64) -> u64;

/// The bits of the rounded product of two binary64 numbers.
pub uninterp spec fn ieee_product(a: u64, b: u64) -> u64;

/// The bits of the rounded quotient of two binary64 numbers.
pub uninterp spec fn ieee_quotient(a: u64, b: u64) -> u64;

/// The bits of the remainder of a truncating division (C `fmod`).
pub uninterp spec fn ieee_remainder(a: u64, b: u64) -> u64;

/// The bits of the least integral binary64 number not below the argument.
pub uninterp spec fn ieee_ceiling(a: u64) -> u64;

/// The integer part of a binary64 number, saturated to 128 bits; zero for a NaN.
pub uninterp spec fn ieee_truncation(a: u64) -> i128;

/// The bits of the binary64 number nearest to an integer, ties to even.
pub uninterp spec fn ieee_of_integer(n: i128) -> u64;

/// The bits of the binary128 number that equals a binary64 number.
pub uninterp spec fn ieee_widened(a: u64) -> u128;

/// The bits of the rounded product of two binary128 numbers.
pub uninterp spec fn ieee_wide_product(a: u128, b: u128) -> u128;

/// The bits of the binary64 number nearest to a binary128 number.
pub uninterp spec fn ieee_narrowed(a: u128) -> u64;

/// `FloatConvert::convert` of `rustc_apfloat` from `ieee::Double` to
/// `ieee::Quad`, on bit patterns: the result is a function of the pattern
/// alone.
#[verifier::external_body]
fn apfloat_widen(a: u64) -> (r: u128)
    ensures
        r == ieee_widened(a),
{
    let mut loses_info = false;
    let wide: Quad = Double::from_bits(a as u128).convert(&mut loses_info).value;
    wide.to_bits()
}

/// `Mul::mul` of `rustc_apfloat::ieee::Quad`, on bit patterns: the result is
/// a function of the two patterns alone.
#[verifier::external_body]
fn apfloat_wide_mul(a: u128, b: u128) -> (r: u128)
    ensures
        r == ieee_wide_product(a, b),
{
    (Quad::from_bits(a) * Quad::from_bits(b)).value.to_bits()
}

/// `FloatConvert::convert` of `rustc_apfloat` from `ieee::Quad` to
/// `ieee::Double`, on bit patterns: the result is a function of the pattern
/// alone.
#[verifier::external_body]
fn apfloat_narrow(a: u128) -> (r: u64)
    ensures
        r == ieee_narrowed(a),
{
    let mut loses_info = false;
    let narrow: Double = Quad::from_bits(a).convert(&mut loses_info).value;
    narrow.to_bits() as u64
}

/// `Add::add` of `rustc_apfloat::ieee::Double`, on bit patterns: the result is
/// a function of the two patterns alone. Nothing more is claimed of it.
#[verifier::external_body]
fn apfloat_add(a: u64, b: u64) -> (r: u64)
    ensures
        r == ieee_sum(a, b),
{
    (Double::from_bits(a as u128) + Double::from_bits(b as u128)).value.to_bits() as u64
}

/// `Sub::sub` of `rustc_apfloat::ieee::Double`, on bit patterns: the result is
/// a function of the two patterns alone.
#[verifier::external_body]
fn apfloat_sub(a: u64, b: u64) -> (r: u64)
    ensures
        r == ieee_difference(a, b),
{
    (Double::from_bits(a as u128) - Double::from_bits(b as u128)).value.to_bits() as u64
}

/// `Mul::mul` of `rustc_apfloat::ieee::Double`, on bit patterns: the result is
/// a function of the two patterns alone.
#[verifier::external_body]
fn apfloat_mul(a: u64, b: u64) -> (r: u64)
    ensures
        r == ieee_product(a, b),
{
    (Double::from_bits(a as u128) * Double::from_bits(b as u128)).value.to_bits() as u64
}

/// `Div::div` of `rustc_apfloat::ieee::Double`, on bit patterns: the result is
/// a function of the two patterns alone. A zero divisor gives an infinity or
/// a NaN; the call does not fail.
#[verifier::external_body]
fn apfloat_div(a: u64, b: u64) -> (r: u64)
    ensures
        r == ieee_quotient(a, b),
{
    (Double::from_bits(a as u128) / Double::from_bits(b as u128)).value.to_bits() as u64
}

/// `Rem::rem` of `rustc_apfloat::ieee::Double` (its `c_fmod`), on bit
/// patterns: the result is a function of the two patterns alone.
#[verifier::external_body]
fn apfloat_rem(a: u64, b: u64) -> (r: u64)
    ensures
        r == ieee_remainder(a, b),
{
    (Double::from_bits(a as u128) % Double::from_bits(b as u128)).value.to_bits() as u64
}

/// `Float::round_to_integral` of `rustc_apfloat`, rounding toward positive
/// infinity: the result is a function of the pattern alone.
#[verifier::external_body]
fn apfloat_ceil(a: u64) -> (r: u64)
    ensures
        r == ieee_ceiling(a),
{
    Double::from_bits(a as u128).round_to_integral(Round::TowardPositive).value.to_bits() as u64
}

/// `Float::to_i128` of `rustc_apfloat` at a width of 128 bits: rounds toward
/// zero and saturates; the result is a function of the pattern alone.
#[verifier::external_body]
fn apfloat_to_int(a: u64) -> (r: i128)
    ensures
        r == ieee_truncation(a),
{
    Double::from_bits(a as u128).to_i128(128).value
}

/// `Float::from_i128` of `rustc_apfloat`: the result is a function of the
/// integer alone.
#[verifier::external_body]
fn apfloat_from_int(n: i128) -> (r: u64)
    ensures
        r == ieee_of_integer(n),
{
    Double::from_i128(n).value.to_bits() as u64
}

/// A binary64 number, held as its bit pattern.
#[derive(Clone, Copy, Debug, PartialEq, Eq, Structural)]
pub struct Num {
    pub bits: u64,
}

/// A binary128 number, held as its bit pattern: room for a product of
/// binary64 numbers before it is rounded.
#[derive(Clone, Copy, Debug, PartialEq, Eq, Structural)]
pub struct Wide {
    pub bits: u128,
}

impl Wide {
    /// The rounded product.
    pub open spec fn spec_times(self, other: Wide) -> Wide {
        Wide { bits: ieee_wide_product(self.bits, other.bits) }
    }

    /// The nearest binary64 number.
    pub open spec fn spec_narrow(self) -> Num {
        Num { bits: ieee_narrowed(self.bits) }
    }

    /// The rounded product.
    pub fn times(self, other: Wide) -> (r: Wide)
        ensures
            r == self.spec_times(other),
    {
        Wide { bits: apfloat_wide_mul(self.bits, other.bits) }
    }

    /// The nearest binary64 number.
    pub fn narrow(self) -> (r: Num)
        ensures
            r == self.spec_narrow(),
    {
        Num { bits: apfloat_narrow(self.bits) }
    }
}

impl Num {
    /// The pattern without its sign.
    pub open spec fn magnitude(self) -> u64 {
        if self.bits >= SIGN_BIT {
            (self.bits - SIGN_BIT) as u64
        } else {
            self.bits
        }
    }

    /// Whether the sign bit is set.
    pub open spec fn spec_is_negative(self) -> bool {
        self.bits >= SIGN_BIT
    }

    /// Whether the pattern is a NaN.
    pub open spec fn spec_is_nan(self) -> bool {
        self.magnitude() > INFINITY_BITS
    }

    /// Whether the number is `+0.0` or `-0.0`.
    pub open spec fn spec_is_zero(self) -> bool {
        self.magnitude() == 0
    }

    /// The place of a number that is not a NaN in the order of the reals:
    /// patterns of one sign are ordered as their magnitudes are, and the two
    /// zeros share a place.
    pub open spec fn rank(self) -> int {
        if self.spec_is_negative() {
            -(self.magnitude() as int)
        } else {
            self.magnitude() as int
        }
    }

    /// `self < other` as IEEE-754 orders them: false when either is a NaN.
    pub open spec fn spec_lt(self, other: Num) -> bool {
        !self.spec_is_nan() && !other.spec_is_nan() && self.rank() < other.rank()
    }

    /// `self <= other` as IEEE-754 orders them: false when either is a NaN.
    pub open spec fn spec_le(self, other: Num) -> bool {
        !self.spec_is_nan() && !other.spec_is_nan() && self.rank() <= other.rank()
    }

    /// `self == other` as IEEE-754 compares them: false when either is a NaN,
    /// true of the two zeros.
    pub open spec fn spec_same(self, other: Num) -> bool {
        !self.spec_is_nan() && !other.spec_is_nan() && self.rank() == other.rank()
    }

    /// The number with its sign flipped.
    pub open spec fn spec_neg(self) -> Num {
        if self.bits >= SIGN_BIT {
            Num { bits: (self.bits - SIGN_BIT) as u64 }
        } else {
            Num { bits: (self.bits + SIGN_BIT) as u64 }
        }
    }

    /// The number with its sign cleared.
    pub open spec fn spec_abs(self) -> Num {
        Num { bits: self.magnitude() }
    }

    /// The rounded sum.
    pub open spec fn spec_plus(self, other: Num) -> Num {
        Num { bits: ieee_sum(self.bits, other.bits) }
    }

    /// The rounded difference.
    pub open spec fn spec_minus(self, other: Num) -> Num {
        Num { bits: ieee_difference(self.bits, other.bits) }
    }

    /// The rounded product.
    pub open spec fn spec_times(self, other: Num) -> Num {
        Num { bits: ieee_product(self.bits, other.bits) }
    }

    /// The rounded quotient.
    pub open spec fn spec_over(self, other: Num) -> Num {
        Num { bits: ieee_quotient(self.bits, other.bits) }
    }

    /// The remainder of the truncating division.
    pub open spec fn spec_modulo(self, other: Num) -> Num {
        Num { bits: ieee_remainder(self.bits, other.bits) }
    }

    /// The same number with room for products.
    pub open spec fn spec_widen(self) -> Wide {
        Wide { bits: ieee_widened(self.bits) }
    }

    /// The least integral number not below `self`.
    pub open spec fn spec_ceil(self) -> Num {
        Num { bits: ieee_ceiling(self.bits) }
    }

    /// The number nearest to an integer.
    pub open spec fn spec_of_int(n: int) -> Num {
        Num { bits: ieee_of_integer(n as i128) }
    }

    /// The integer part, saturated to `lo..=hi`; zero (saturated likewise) for
    /// a NaN.
    pub open spec fn spec_trunc(self, lo: int, hi: int) -> int {
        let t = ieee_truncation(self.bits) as int;
        if t < lo {
            lo
        } else if t > hi {
            hi
        } else {
            t
        }
    }

    /// `+0.0`.
    pub open spec fn spec_zero() -> Num {
        Num { bits: 0 }
    }

    /// `1.0`.
    pub open spec fn spec_one() -> Num {
        Num { bits: ONE_BITS }
    }

    /// `0.5`.
    pub open spec fn spec_half() -> Num {
        Num { bits: HALF_BITS }
    }

    /// The machine epsilon.
    pub open spec fn spec_epsilon() -> Num {
        Num { bits: EPSILON_BITS }
    }

    /// The number with the given bit pattern.
    pub fn from_bits(bits: u64) -> (r: Num)
        ensures
            r.bits == bits,
    {
        Num { bits }
    }

    /// The bit pattern of the number.
    pub fn to_bits(self) -> (r: u64)
        ensures
            r == self.bits,
    {
        self.bits
    }

    /// `+0.0`.
    pub fn zero() -> (r: Num)
        ensures
            r == Num::spec_zero(),
    {
        Num { bits: 0 }
    }

    /// `1.0`.
    pub fn one() -> (r: Num)
        ensures
            r == Num::spec_one(),
    {
        Num { bits: ONE_BITS }
    }

    /// `0.5`.
    pub fn half() -> (r: Num)
        ensures
            r == Num::spec_half(),
    {
        Num { bits: HALF_BITS }
    }

    /// The machine epsilon, `2^-52`.
    pub fn epsilon() -> (r: Num)
        ensures
            r == Num::spec_epsilon(),
    {
        Num { bits: EPSILON_BITS }
    }

    /// Whether the sign bit is set.
    pub fn is_negative(self) -> (r: bool)
        ensures
            r == self.spec_is_negative(),
    {
        self.bits >= SIGN_BIT
    }

    fn exec_magnitude(self) -> (r: u64)
        ensures
            r == self.magnitude(),
    {
        if self.bits >= SIGN_BIT {
            self.bits - SIGN_BIT
        } else {
            self.bits
        }
    }

    /// Whether the pattern is a NaN.
    pub fn is_nan(self) -> (r: bool)
        ensures
            r == self.spec_is_nan(),
    {
        self.exec_magnitude() > INFINITY_BITS
    }

    /// Whether the number is `+0.0` or `-0.0`.
    pub fn is_zero(self) -> (r: bool)
        ensures
            r == self.spec_is_zero(),
    {
        self.exec_magnitude() == 0
    }

    /// `self < other`; false when either is a NaN.
    pub fn lt(self, other: Num) -> (r: bool)
        ensures
            r == self.spec_lt(other),
    {
        if self.is_nan() || other.is_nan() {
            return false;
        }
        let a: u64 = self.exec_magnitude();
        let b: u64 = other.exec_magnitude();
        if self.is_negative() {
            if other.is_negative() {
                b < a
            } else {
                a != 0 || b != 0
            }
        } else {
            if other.is_negative() {
                false
            } else {
                a < b
            }
        }
    }

    /// `self == other`; false when either is a NaN, true of the two zeros.
    pub fn same(self, other: Num) -> (r: bool)
        ensures
            r == self.spec_same(other),
    {
        if self.is_nan() || other.is_nan() {
            return false;
        }
        let a: u64 = self.exec_magnitude();
        let b: u64 = other.exec_magnitude();
        if self.is_negative() == other.is_negative() {
            a == b
        } else {
            a == 0 && b == 0
        }
    }

    /// `self <= other`; false when either is a NaN.
    pub fn le(self, other: Num) -> (r: bool)
        ensures
            r == self.spec_le(other),
    {
        self.lt(other) || self.same(other)
    }

    /// The number with its sign flipped.
    pub fn neg(self) -> (r: Num)
        ensures
            r == self.spec_neg(),
    {
        if self.bits >= SIGN_BIT {
            Num { bits: self.bits - SIGN_BIT }
        } else {
            Num { bits: self.bits + SIGN_BIT }
        }
    }

    /// The number with its sign cleared.
    pub fn abs(self) -> (r: Num)
        ensures
            r == self.spec_abs(),
    {
        Num { bits: self.exec_magnitude() }
    }

    /// The rounded sum.
    pub fn plus(self, other: Num) -> (r: Num)
        ensures
            r == self.spec_plus(other),
    {
        Num { bits: apfloat_add(self.bits, other.bits) }
    }

    /// The rounded difference.
    pub fn minus(self, other: Num) -> (r: Num)
        ensures
            r == self.spec_minus(other),
    {
        Num { bits: apfloat_sub(self.bits, other.bits) }
    }

    /// The rounded product.
    pub fn times(self, other: Num) -> (r: Num)
        ensures
            r == self.spec_times(other),
    {
        Num { bits: apfloat_mul(self.bits, other.bits) }
    }

    /// The rounded quotient; of a division by zero an infinity or a NaN.
    pub fn over(self, other: Num) -> (r: Num)
        ensures
            r == self.spec_over(other),
    {
        Num { bits: apfloat_div(self.bits, other.bits) }
    }

    /// The remainder of the truncating division; a NaN where the divisor is zero.
    pub fn modulo(self, other: Num) -> (r: Num)
        ensures
            r == self.spec_modulo(other),
    {
        Num { bits: apfloat_rem(self.bits, other.bits) }
    }

    /// The same number with room for products.
    pub fn widen(self) -> (r: Wide)
        ensures
            r == self.spec_widen(),
    {
        Wide { bits: apfloat_widen(self.bits) }
    }

    /// The least integral number not below `self`.
    pub fn ceil(self) -> (r: Num)
        ensures
            r == self.spec_ceil(),
    {
        Num { bits: apfloat_ceil(self.bits) }
    }

    /// The number nearest to an integer.
    pub fn of_i64(n: i64) -> (r: Num)
        ensures
            r == Num::spec_of_int(n as int),
    {
        Num { bits: apfloat_from_int(n as i128) }
    }

    /// The number nearest to a size.
    pub fn of_usize(n: usize) -> (r: Num)
        ensures
            r == Num::spec_of_int(n as int),
    {
        Num { bits: apfloat_from_int(n as i128) }
    }

    /// The integer part as `i64`, saturated.
    pub fn to_i64(self) -> (r: i64)
        ensures
            r == self.spec_trunc(i64::MIN as int, i64::MAX as int),
    {
        let t: i128 = apfloat_to_int(self.bits);
        if t < i64::MIN as i128 {
            i64::MIN
        } else if t > i64::MAX as i128 {
            i64::MAX
        } else {
            t as i64
        }
    }

    /// The integer part as `u32`, saturated.
    pub fn to_u32(self) -> (r: u32)
        ensures
            r == self.spec_trunc(0, u32::MAX as int),
    {
        let t: i128 = apfloat_to_int(self.bits);
        if t < 0 {
            0
        } else if t > u32::MAX as i128 {
            u32::MAX
        } else {
            t as u32
        }
    }

    /// The integer part as `usize`, saturated.
    pub fn to_usize(self) -> (r: usize)
        ensures
            r == self.spec_trunc(0, usize::MAX as int),
    {
        let t: i128 = apfloat_to_int(self.bits);
        if t < 0 {
            0
        } else if t > usize::MAX as i128 {
            usize::MAX
        } else {
            t as usize
        }
    }
}

} // verus!
