//! IEEE 754 binary32 numbers, held as their bits and computed with integers.

use crate::magnitude;
use crate::rounding;
use vstd::arithmetic::mul::*;
use vstd::arithmetic::power2::*;
use vstd::prelude::*;

verus! {

/// A binary32 number. `==` compares encodings; the numbers themselves are compared with
/// `is_below` and `is_at_most`.
#[derive(Clone, Copy, Debug, PartialEq, Eq, Structural)]
pub struct Binary32 {
    pub bits: u32,
}

/// The number with the given sign and magnitude.
pub open spec fn signed(negative: bool, mag: u32) -> Binary32 {
    Binary32 { bits: if negative { (0x8000_0000 + mag) as u32 } else { mag } }
}

/// The "not a number" that operations without a result give. Of its many encodings they always
/// give this one.
pub open spec fn nan() -> Binary32 {
    Binary32 { bits: 0x7fc0_0000 }
}

/// One, in units of 2^-149.
pub open spec fn one_in_units() -> nat {
    pow2(149)
}

/// The number nearest to `num / den`.
pub open spec fn ratio(num: nat, den: nat) -> Binary32 {
    signed(false, rounding::nearest(num * one_in_units(), den))
}

impl Binary32 {
    pub open spec fn negative(self) -> bool {
        self.bits >= 0x8000_0000
    }

    /// The encoding without its sign.
    pub open spec fn mag(self) -> u32 {
        self.bits % 0x8000_0000
    }

    pub open spec fn is_nan(self) -> bool {
        self.mag() > rounding::INFINITE
    }

    pub open spec fn is_infinite(self) -> bool {
        self.mag() == rounding::INFINITE
    }

    /// Neither infinite nor "not a number".
    pub open spec fn is_finite(self) -> bool {
        self.mag() < rounding::INFINITE
    }

    pub open spec fn is_zero(self) -> bool {
        self.mag() == 0
    }

    /// The size of the number in units of 2^-149.
    pub open spec fn size(self) -> nat {
        rounding::units(self.mag() as nat)
    }

    /// The number in units of 2^-149.
    pub open spec fn value(self) -> int {
        if self.negative() {
            -self.size()
        } else {
            self.size() as int
        }
    }

    /// The place of the number in the order of all numbers; both zeros share one.
    pub open spec fn rank(self) -> int {
        if self.negative() {
            -self.mag()
        } else {
            self.mag() as int
        }
    }

    /// `self < other`, which is false where one of them is not a number.
    pub open spec fn below(self, other: Self) -> bool {
        !self.is_nan() && !other.is_nan() && self.rank() < other.rank()
    }

    /// `self <= other`, which is false where one of them is not a number.
    pub open spec fn at_most(self, other: Self) -> bool {
        !self.is_nan() && !other.is_nan() && self.rank() <= other.rank()
    }

    pub open spec fn negated(self) -> Self {
        signed(!self.negative(), self.mag())
    }

    pub open spec fn absolute(self) -> Self {
        signed(false, self.mag())
    }

    /// The larger of two numbers, or the one that is a number.
    pub open spec fn larger(self, other: Self) -> Self {
        if self.is_nan() || self.below(other) {
            other
        } else {
            self
        }
    }

    /// `self` held between `low` and `high`; what is not a number stays so.
    pub open spec fn held_between(self, low: Self, high: Self) -> Self {
        if self.below(low) {
            low
        } else if high.below(self) {
            high
        } else {
            self
        }
    }

    /// The exact sum, rounded to the nearest number.
    pub open spec fn sum(self, other: Self) -> Self {
        if self.is_nan() || other.is_nan() {
            nan()
        } else if self.is_infinite() {
            if other.is_infinite() && self.negative() != other.negative() {
                nan()
            } else {
                self
            }
        } else if other.is_infinite() {
            other
        } else {
            let exact = self.value() + other.value();
            if exact == 0 {
                signed(self.negative() && other.negative(), 0)
            } else if exact < 0 {
                signed(true, rounding::nearest((-exact) as nat, 1))
            } else {
                signed(false, rounding::nearest(exact as nat, 1))
            }
        }
    }

    /// The exact difference, rounded to the nearest number.
    pub open spec fn difference(self, other: Self) -> Self {
        self.sum(other.negated())
    }

    /// The exact product, rounded to the nearest number.
    pub open spec fn product(self, other: Self) -> Self {
        let negative = self.negative() != other.negative();
        if self.is_nan() || other.is_nan() {
            nan()
        } else if self.is_infinite() || other.is_infinite() {
            if self.is_zero() || other.is_zero() {
                nan()
            } else {
                signed(negative, rounding::INFINITE)
            }
        } else {
            signed(negative, rounding::nearest(self.size() * other.size(), one_in_units()))
        }
    }

    /// The exact quotient, rounded to the nearest number.
    pub open spec fn quotient(self, other: Self) -> Self {
        let negative = self.negative() != other.negative();
        if self.is_nan() || other.is_nan() {
            nan()
        } else if self.is_infinite() {
            if other.is_infinite() {
                nan()
            } else {
                signed(negative, rounding::INFINITE)
            }
        } else if other.is_infinite() {
            signed(negative, 0)
        } else if other.is_zero() {
            if self.is_zero() {
                nan()
            } else {
                signed(negative, rounding::INFINITE)
            }
        } else {
            signed(negative, rounding::nearest(self.size() * one_in_units(), other.size()))
        }
    }

    /// The whole part as a count: zero for what is negative or not a number, and the largest count
    /// for what is beyond it.
    pub open spec fn truncated(self) -> u64 {
        if self.is_nan() || self.negative() {
            0
        } else {
            let whole = self.size() / one_in_units();
            if self.is_infinite() || whole > u64::MAX {
                u64::MAX
            } else {
                whole as u64
            }
        }
    }

    pub fn from_bits(bits: u32) -> (r: Self)
        ensures
            r.bits == bits,
    {
        Binary32 { bits }
    }

    pub fn to_bits(self) -> (bits: u32)
        ensures
            bits == self.bits,
    {
        self.bits
    }

    pub fn zero() -> (r: Self)
        ensures
            r == signed(false, 0),
    {
        Binary32 { bits: 0 }
    }

    fn magnitude(self) -> (mag: u32)
        ensures
            mag == self.mag(),
    {
        self.bits % 0x8000_0000
    }

    fn has_sign(self) -> (r: bool)
        ensures
            r == self.negative(),
    {
        self.bits >= 0x8000_0000
    }

    fn with_sign(negative: bool, mag: u32) -> (r: Self)
        requires
            mag <= rounding::INFINITE,
        ensures
            r == signed(negative, mag),
    {
        Binary32 { bits: if negative { 0x8000_0000 + mag } else { mag } }
    }

    fn order(self) -> (r: i64)
        ensures
            r == self.rank(),
    {
        let mag = self.magnitude() as i64;
        if self.has_sign() {
            -mag
        } else {
            mag
        }
    }

    /// `self < other`.
    pub fn is_below(self, other: Self) -> (r: bool)
        ensures
            r == self.below(other),
    {
        self.magnitude() <= rounding::INFINITE && other.magnitude() <= rounding::INFINITE
            && self.order() < other.order()
    }

    /// `self <= other`.
    pub fn is_at_most(self, other: Self) -> (r: bool)
        ensures
            r == self.at_most(other),
    {
        self.magnitude() <= rounding::INFINITE && other.magnitude() <= rounding::INFINITE
            && self.order() <= other.order()
    }

    pub fn plus(self, other: Self) -> (r: Self)
        ensures
            r == self.sum(other),
    {
        let a = self.magnitude();
        let b = other.magnitude();
        if a > rounding::INFINITE || b > rounding::INFINITE {
            Binary32 { bits: 0x7fc0_0000 }
        } else if a == rounding::INFINITE {
            if b == rounding::INFINITE && self.has_sign() != other.has_sign() {
                Binary32 { bits: 0x7fc0_0000 }
            } else {
                self
            }
        } else if b == rounding::INFINITE {
            other
        } else {
            proof {
                self.lemma_compare_sizes(other);
            }
            if self.has_sign() == other.has_sign() {
                if a == 0 && b == 0 {
                    Self::with_sign(self.has_sign(), 0)
                } else if a >= b {
                    Self::with_sign(self.has_sign(), magnitude::combine(a, b, false))
                } else {
                    Self::with_sign(self.has_sign(), magnitude::combine(b, a, false))
                }
            } else if a > b {
                Self::with_sign(self.has_sign(), magnitude::combine(a, b, true))
            } else if b > a {
                Self::with_sign(other.has_sign(), magnitude::combine(b, a, true))
            } else {
                Self::with_sign(false, 0)
            }
        }
    }

    pub fn minus(self, other: Self) -> (r: Self)
        ensures
            r == self.difference(other),
    {
        self.plus(
            Binary32 {
                bits: if other.has_sign() {
                    other.magnitude()
                } else {
                    0x8000_0000 + other.magnitude()
                },
            },
        )
    }

    pub fn times(self, other: Self) -> (r: Self)
        ensures
            r == self.product(other),
    {
        let a = self.magnitude();
        let b = other.magnitude();
        let negative = self.has_sign() != other.has_sign();
        if a > rounding::INFINITE || b > rounding::INFINITE {
            Binary32 { bits: 0x7fc0_0000 }
        } else if a == rounding::INFINITE || b == rounding::INFINITE {
            if a == 0 || b == 0 {
                Binary32 { bits: 0x7fc0_0000 }
            } else {
                Self::with_sign(negative, rounding::INFINITE)
            }
        } else {
            Self::with_sign(negative, magnitude::multiply(a, b))
        }
    }

    pub fn over(self, other: Self) -> (r: Self)
        ensures
            r == self.quotient(other),
    {
        let a = self.magnitude();
        let b = other.magnitude();
        let negative = self.has_sign() != other.has_sign();
        if a > rounding::INFINITE || b > rounding::INFINITE {
            Binary32 { bits: 0x7fc0_0000 }
        } else if a == rounding::INFINITE {
            if b == rounding::INFINITE {
                Binary32 { bits: 0x7fc0_0000 }
            } else {
                Self::with_sign(negative, rounding::INFINITE)
            }
        } else if b == rounding::INFINITE {
            Self::with_sign(negative, 0)
        } else if b == 0 {
            if a == 0 {
                Binary32 { bits: 0x7fc0_0000 }
            } else {
                Self::with_sign(negative, rounding::INFINITE)
            }
        } else {
            Self::with_sign(negative, magnitude::quotient(a, b))
        }
    }

    /// The number nearest to `num / den`.
    pub fn from_ratio(num: u32, den: u32) -> (r: Self)
        requires
            den > 0,
        ensures
            r == ratio(num as nat, den as nat),
    {
        let ghost scaled = num as nat * one_in_units();
        proof {
            lemma2_to64();
            lemma_mul_basics(scaled as int);
        }
        let mag = magnitude::divide(num as u64, den as u64, 149, Ghost(scaled), Ghost(den as nat));
        Self::with_sign(false, mag)
    }

    /// The whole part as a count.
    pub fn trunc_u64(self) -> (r: u64)
        ensures
            r == self.truncated(),
    {
        let mag = self.magnitude();
        if mag > rounding::INFINITE || self.has_sign() {
            0
        } else if mag == rounding::INFINITE {
            u64::MAX
        } else {
            magnitude::whole(mag)
        }
    }

    proof fn lemma_compare_sizes(self, other: Self)
        ensures
            self.mag() < other.mag() ==> self.size() < other.size(),
            self.mag() > other.mag() ==> self.size() > other.size(),
            self.mag() > 0 <==> self.size() > 0,
            other.mag() > 0 <==> other.size() > 0,
    {
        if self.mag() > 0 {
            rounding::lemma_units_increase(0, self.mag() as nat);
        }
        if other.mag() > 0 {
            rounding::lemma_units_increase(0, other.mag() as nat);
        }
        if self.mag() < other.mag() {
            rounding::lemma_units_increase(self.mag() as nat, other.mag() as nat);
        } else if self.mag() > other.mag() {
            rounding::lemma_units_increase(other.mag() as nat, self.mag() as nat);
        }
    }

    pub fn abs(self) -> (r: Self)
        ensures
            r == self.absolute(),
    {
        Binary32 { bits: self.magnitude() }
    }

    pub fn max(self, other: Self) -> (r: Self)
        ensures
            r == self.larger(other),
    {
        if self.magnitude() > rounding::INFINITE || self.is_below(other) {
            other
        } else {
            self
        }
    }

    pub fn clamp(self, low: Self, high: Self) -> (r: Self)
        requires
            low.at_most(high),
        ensures
            r == self.held_between(low, high),
    {
        if self.is_below(low) {
            low
        } else if high.is_below(self) {
            high
        } else {
            self
        }
    }
}

/// Numbers are ordered by their values.
pub proof fn law_order_by_value(a: Binary32, b: Binary32)
    requires
        !a.is_nan(),
        !b.is_nan(),
    ensures
        a.below(b) <==> a.value() < b.value(),
        a.at_most(b) <==> a.value() <= b.value(),
{
    a.lemma_compare_sizes(b);
}

/// Dividing by a positive number keeps the order of numbers that are not negative, and so does
/// counting the whole part.
pub proof fn law_whole_quotient_keeps_order(a: Binary32, b: Binary32, divisor: Binary32)
    requires
        signed(false, 0).at_most(a),
        a.at_most(b),
        signed(false, 0).below(divisor),
        b.is_infinite() ==> !divisor.is_infinite(),
    ensures
        a.quotient(divisor).truncated() <= b.quotient(divisor).truncated(),
{
    a.lemma_compare_sizes(b);
    divisor.lemma_compare_sizes(divisor);
    lemma_pow2_pos(149);
    let unit = one_in_units();
    vstd::arithmetic::div_mod::lemma_div_of0(unit as int);
    lemma_mul_basics(unit as int);
    if !divisor.is_infinite() {
        rounding::law_exact_values_round_to_themselves(0, divisor.size());
        lemma_mul_basics(divisor.size() as int);
    }
    if !b.is_infinite() && !divisor.is_infinite() {
        let x = rounding::nearest(a.size() * unit, divisor.size());
        let y = rounding::nearest(b.size() * unit, divisor.size());
        lemma_mul_inequality(a.size() as int, b.size() as int, unit as int);
        rounding::law_rounding_keeps_order(a.size() * unit, b.size() * unit, divisor.size());
        rounding::law_nearest_exists(a.size() * unit, divisor.size());
        rounding::law_nearest_exists(b.size() * unit, divisor.size());
        if x < y {
            rounding::lemma_units_increase(x as nat, y as nat);
        }
        vstd::arithmetic::div_mod::lemma_div_is_ordered(
            rounding::units(x as nat) as int,
            rounding::units(y as nat) as int,
            unit as int,
        );
    }
}

/// The value of a signed magnitude.
proof fn lemma_signed(negative: bool, mag: u32)
    requires
        mag <= rounding::INFINITE,
    ensures
        signed(negative, mag).mag() == mag,
        signed(negative, mag).negative() == negative,
        signed(negative, mag).size() == rounding::units(mag as nat),
        signed(negative, mag).value() == if negative {
            -rounding::units(mag as nat)
        } else {
            rounding::units(mag as nat) as int
        },
{
}

/// What is at most an exact quotient is at most what the quotient rounds to, and so for at least.
proof fn lemma_nearest_bounds(num: nat, den: nat, mag: u32)
    requires
        den > 0,
        mag <= rounding::INFINITE,
    ensures
        rounding::nearest(num, den) <= rounding::INFINITE,
        rounding::units(mag as nat) * den <= num ==> rounding::units(mag as nat)
            <= rounding::units(rounding::nearest(num, den) as nat),
        num <= rounding::units(mag as nat) * den ==> rounding::units(
            rounding::nearest(num, den) as nat,
        ) <= rounding::units(mag as nat),
{
    let near = rounding::nearest(num, den);
    let exact = rounding::units(mag as nat) * den;
    rounding::law_nearest_exists(num, den);
    rounding::law_exact_values_round_to_themselves(mag, den);
    if exact <= num {
        rounding::law_rounding_keeps_order(exact, num, den);
    }
    if num <= exact {
        rounding::law_rounding_keeps_order(num, exact, den);
    }
    if mag < near {
        rounding::lemma_units_increase(mag as nat, near as nat);
    } else if near < mag {
        rounding::lemma_units_increase(near as nat, mag as nat);
    }
}

/// A rounded sum lies on the same side of every number as the exact sum does, or on that number.
pub proof fn law_sum_bounds(a: Binary32, b: Binary32, y: Binary32)
    requires
        a.is_finite(),
        b.is_finite(),
        y.is_finite(),
    ensures
        !a.sum(b).is_nan(),
        y.value() <= a.value() + b.value() ==> y.value() <= a.sum(b).value(),
        a.value() + b.value() <= y.value() ==> a.sum(b).value() <= y.value(),
{
    let exact = a.value() + b.value();
    let size = if exact < 0 {
        (-exact) as nat
    } else {
        exact as nat
    };
    lemma_nearest_bounds(size, 1, y.mag());
    lemma_signed(exact < 0, rounding::nearest(size, 1));
    lemma_signed(a.negative() && b.negative(), 0);
}

/// A rounded difference lies on the same side of every number as the exact difference does, or on
/// that number.
pub proof fn law_difference_bounds(a: Binary32, b: Binary32, y: Binary32)
    requires
        a.is_finite(),
        b.is_finite(),
        y.is_finite(),
    ensures
        !a.difference(b).is_nan(),
        y.value() <= a.value() - b.value() ==> y.value() <= a.difference(b).value(),
        a.value() - b.value() <= y.value() ==> a.difference(b).value() <= y.value(),
{
    lemma_signed(!b.negative(), b.mag());
    law_sum_bounds(a, b.negated(), y);
}

/// The size of a rounded difference lies on the same side of every number as the exact distance
/// does, or on that number.
pub proof fn law_distance_bounds(a: Binary32, b: Binary32, y: Binary32)
    requires
        a.is_finite(),
        b.is_finite(),
        y.is_finite(),
    ensures
        ({
            let exact = if a.value() < b.value() {
                b.value() - a.value()
            } else {
                a.value() - b.value()
            };
            let distance = a.difference(b).absolute();
            &&& !distance.is_nan()
            &&& distance.value() >= 0
            &&& y.value() <= exact ==> y.value() <= distance.value()
            &&& exact <= y.value() ==> distance.value() <= y.value()
        }),
{
    let d = a.difference(b);
    let minus = y.negated();
    lemma_signed(!y.negative(), y.mag());
    law_difference_bounds(a, b, y);
    law_difference_bounds(a, b, minus);
    law_difference_bounds(a, b, signed(false, 0));
    lemma_signed(false, d.mag());
}

/// The distance of two numbers is the same either way round.
pub proof fn law_distance_is_symmetric(a: Binary32, b: Binary32)
    requires
        a.is_finite(),
        b.is_finite(),
    ensures
        a.difference(b).absolute() == b.difference(a).absolute(),
{
    lemma_signed(!a.negative(), a.mag());
    lemma_signed(!b.negative(), b.mag());
    let exact = a.value() - b.value();
    let size = if exact < 0 {
        (-exact) as nat
    } else {
        exact as nat
    };
    rounding::law_nearest_exists(size, 1);
    lemma_signed(true, rounding::nearest(size, 1));
    lemma_signed(false, rounding::nearest(size, 1));
}

/// Products by a positive number keep the order of numbers that are not negative.
pub proof fn law_product_keeps_order(a: Binary32, b: Binary32, factor: Binary32)
    requires
        !a.is_nan(),
        !b.is_nan(),
        0 <= a.value() <= b.value(),
        factor.is_finite(),
        factor.value() > 0,
    ensures
        !a.product(factor).is_nan(),
        !b.product(factor).is_nan(),
        0 <= a.product(factor).value() <= b.product(factor).value(),
{
    let unit = one_in_units();
    lemma_pow2_pos(149);
    a.lemma_compare_sizes(b);
    a.lemma_compare_sizes(factor);
    b.lemma_compare_sizes(factor);
    lemma_signed(false, rounding::INFINITE);
    let x = rounding::nearest(a.size() * factor.size(), unit);
    let y = rounding::nearest(b.size() * factor.size(), unit);
    rounding::law_nearest_exists(a.size() * factor.size(), unit);
    rounding::law_nearest_exists(b.size() * factor.size(), unit);
    lemma_mul_inequality(a.size() as int, b.size() as int, factor.size() as int);
    rounding::law_rounding_keeps_order(a.size() * factor.size(), b.size() * factor.size(), unit);
    rounding::law_exact_values_round_to_themselves(0, unit);
    lemma_mul_basics(factor.size() as int);
    lemma_mul_basics(unit as int);
    lemma_signed(a.negative() != factor.negative(), x);
    lemma_signed(b.negative() != factor.negative(), y);
    if x < y {
        rounding::lemma_units_increase(x as nat, y as nat);
    }
    if x < rounding::INFINITE {
        rounding::lemma_units_increase(x as nat, rounding::INFINITE as nat);
    }
}

/// Quotients by a positive number keep the order of numbers that are not negative.
pub proof fn law_quotient_keeps_order(a: Binary32, b: Binary32, divisor: Binary32)
    requires
        !a.is_nan(),
        !b.is_nan(),
        0 <= a.value() <= b.value(),
        divisor.is_finite(),
        divisor.value() > 0,
    ensures
        !a.quotient(divisor).is_nan(),
        !b.quotient(divisor).is_nan(),
        0 <= a.quotient(divisor).value() <= b.quotient(divisor).value(),
{
    let unit = one_in_units();
    lemma_pow2_pos(149);
    a.lemma_compare_sizes(b);
    a.lemma_compare_sizes(divisor);
    b.lemma_compare_sizes(divisor);
    lemma_signed(false, rounding::INFINITE);
    let x = rounding::nearest(a.size() * unit, divisor.size());
    let y = rounding::nearest(b.size() * unit, divisor.size());
    rounding::law_nearest_exists(a.size() * unit, divisor.size());
    rounding::law_nearest_exists(b.size() * unit, divisor.size());
    lemma_mul_inequality(a.size() as int, b.size() as int, unit as int);
    rounding::law_rounding_keeps_order(a.size() * unit, b.size() * unit, divisor.size());
    rounding::law_exact_values_round_to_themselves(0, divisor.size());
    lemma_mul_basics(divisor.size() as int);
    lemma_mul_basics(unit as int);
    lemma_signed(a.negative() != divisor.negative(), x);
    lemma_signed(b.negative() != divisor.negative(), y);
    if x < y {
        rounding::lemma_units_increase(x as nat, y as nat);
    }
    if x < rounding::INFINITE {
        rounding::lemma_units_increase(x as nat, rounding::INFINITE as nat);
    }
}

/// A rounded product of numbers that are not negative lies on the same side of every number as the
/// exact product does, or on that number.
pub proof fn law_product_bounds(a: Binary32, b: Binary32, y: Binary32)
    requires
        a.is_finite(),
        b.is_finite(),
        y.is_finite(),
        a.value() >= 0,
        b.value() > 0,
        y.value() >= 0,
    ensures
        y.value() * one_in_units() <= a.value() * b.value() ==> y.value() <= a.product(b).value(),
        a.value() * b.value() <= y.value() * one_in_units() ==> a.product(b).value() <= y.value(),
{
    let unit = one_in_units();
    lemma_pow2_pos(149);
    law_product_keeps_order(a, a, b);
    a.lemma_compare_sizes(b);
    y.lemma_compare_sizes(y);
    let near = rounding::nearest(a.size() * b.size(), unit);
    lemma_nearest_bounds(a.size() * b.size(), unit, y.mag());
    lemma_signed(a.negative() != b.negative(), near);
    assert(a.value() == a.size() && b.value() == b.size() && y.value() == y.size());
}

/// A rounded quotient of numbers that are not negative lies on the same side of every number as the
/// exact quotient does, or on that number.
pub proof fn law_quotient_bounds(a: Binary32, b: Binary32, y: Binary32)
    requires
        a.is_finite(),
        b.is_finite(),
        y.is_finite(),
        a.value() >= 0,
        b.value() > 0,
        y.value() >= 0,
    ensures
        y.value() * b.value() <= a.value() * one_in_units() ==> y.value() <= a.quotient(b).value(),
        a.value() * one_in_units() <= y.value() * b.value() ==> a.quotient(b).value() <= y.value(),
{
    let unit = one_in_units();
    law_quotient_keeps_order(a, a, b);
    a.lemma_compare_sizes(b);
    y.lemma_compare_sizes(y);
    let near = rounding::nearest(a.size() * unit, b.size());
    lemma_nearest_bounds(a.size() * unit, b.size(), y.mag());
    lemma_signed(a.negative() != b.negative(), near);
    assert(a.value() == a.size() && b.value() == b.size() && y.value() == y.size());
}

/// The whole part of a number counts how many ones it holds.
pub proof fn law_whole_part(x: Binary32, count: u64)
    requires
        !x.is_nan(),
        x.value() >= 0,
    ensures
        count * one_in_units() <= x.value() ==> count <= x.truncated(),
        x.is_finite() && x.value() < (count + 1) * one_in_units() ==> x.truncated() <= count,
{
    let unit = one_in_units() as int;
    lemma_pow2_pos(149);
    x.lemma_compare_sizes(x);
    if x.value() == 0 {
        assert(x.size() == 0);
        vstd::arithmetic::div_mod::lemma_div_of0(unit);
        if count * unit <= 0 {
            assert(count == 0) by (nonlinear_arith)
                requires
                    count * unit <= 0,
                    unit > 0,
                    count >= 0,
            ;
        }
    } else {
        let whole = x.size() as int / unit;
        vstd::arithmetic::div_mod::lemma_fundamental_div_mod(x.size() as int, unit);
        vstd::arithmetic::div_mod::lemma_mod_bound(x.size() as int, unit);
        vstd::arithmetic::div_mod::lemma_div_pos_is_pos(x.size() as int, unit);
        let rest = x.size() as int % unit;
        if count * unit <= x.value() && whole < count {
            assert(unit * whole + rest < count * unit) by (nonlinear_arith)
                requires
                    whole + 1 <= count,
                    0 <= rest < unit,
            ;
        }
        if x.value() < (count + 1) * unit && whole > count {
            assert((count + 1) * unit <= unit * whole + rest) by (nonlinear_arith)
                requires
                    whole >= count + 1,
                    0 <= rest,
                    unit > 0,
            ;
        }
    }
}

/// Dividing a number that is not positive by a positive one gives none that is.
pub proof fn law_quotient_of_nonpositive(a: Binary32, divisor: Binary32)
    requires
        !a.is_nan(),
        a.value() <= 0,
        divisor.is_finite(),
        divisor.value() > 0,
    ensures
        !a.quotient(divisor).is_nan(),
        a.quotient(divisor).value() <= 0,
{
    let unit = one_in_units();
    a.lemma_compare_sizes(divisor);
    lemma_signed(a.negative(), rounding::INFINITE);
    rounding::law_nearest_exists(a.size() * unit, divisor.size());
    rounding::law_exact_values_round_to_themselves(0, divisor.size());
    lemma_mul_basics(divisor.size() as int);
    lemma_mul_basics(unit as int);
    lemma_signed(a.negative(), rounding::nearest(a.size() * unit, divisor.size()));
}

/// Multiplying a number that is not positive by a positive one gives none that is.
pub proof fn law_product_of_nonpositive(a: Binary32, factor: Binary32)
    requires
        !a.is_nan(),
        a.value() <= 0,
        factor.is_finite(),
        factor.value() > 0,
    ensures
        !a.product(factor).is_nan(),
        a.product(factor).value() <= 0,
{
    let unit = one_in_units();
    lemma_pow2_pos(149);
    a.lemma_compare_sizes(factor);
    lemma_signed(a.negative(), rounding::INFINITE);
    rounding::law_nearest_exists(a.size() * factor.size(), unit);
    rounding::law_exact_values_round_to_themselves(0, unit);
    lemma_mul_basics(factor.size() as int);
    lemma_mul_basics(unit as int);
    lemma_signed(a.negative(), rounding::nearest(a.size() * factor.size(), unit));
}

/// Zero holds nothing, however it is divided.
pub proof fn law_zero_holds_nothing(zero: Binary32, divisor: Binary32)
    requires
        zero.is_zero(),
    ensures
        zero.quotient(divisor).truncated() == 0,
{
    let unit = one_in_units();
    lemma_pow2_pos(149);
    zero.lemma_compare_sizes(divisor);
    vstd::arithmetic::div_mod::lemma_div_of0(unit as int);
    lemma_mul_basics(unit as int);
    lemma_signed(zero.negative() != divisor.negative(), 0);
    if divisor.size() > 0 {
        lemma_mul_basics(divisor.size() as int);
        rounding::law_exact_values_round_to_themselves(0, divisor.size());
    }
}

/// What is no more than a finite number, and not negative, is finite.
pub proof fn law_below_finite(x: Binary32, bound: Binary32)
    requires
        !x.is_nan(),
        bound.is_finite(),
        0 <= x.value() <= bound.value(),
    ensures
        x.is_finite(),
{
    x.lemma_compare_sizes(bound);
}

/// Only zeros have the value zero.
pub proof fn law_zero_value(x: Binary32)
    ensures
        x.value() == 0 <==> x.is_zero(),
{
    x.lemma_compare_sizes(x);
}

/// Rounded differences keep the order of the exact ones.
pub proof fn law_difference_keeps_order(a: Binary32, b: Binary32, c: Binary32, d: Binary32)
    requires
        a.is_finite(),
        b.is_finite(),
        c.is_finite(),
        d.is_finite(),
        a.value() - b.value() <= c.value() - d.value(),
    ensures
        !a.difference(b).is_nan(),
        !c.difference(d).is_nan(),
        a.difference(b).value() <= c.difference(d).value(),
{
    lemma_signed(!b.negative(), b.mag());
    lemma_signed(!d.negative(), d.mag());
    let x = a.value() - b.value();
    let y = c.value() - d.value();
    let p = if x < 0 {
        (-x) as nat
    } else {
        x as nat
    };
    let q = if y < 0 {
        (-y) as nat
    } else {
        y as nat
    };
    rounding::law_nearest_exists(p, 1);
    rounding::law_nearest_exists(q, 1);
    let m = rounding::nearest(p, 1);
    let n = rounding::nearest(q, 1);
    if p <= q {
        rounding::law_rounding_keeps_order(p, q, 1);
    }
    if q <= p {
        rounding::law_rounding_keeps_order(q, p, 1);
    }
    lemma_signed(x < 0, m);
    lemma_signed(y < 0, n);
    lemma_signed(true, 0);
    lemma_signed(false, 0);
    if m < n {
        rounding::lemma_units_increase(m as nat, n as nat);
    } else if n < m {
        rounding::lemma_units_increase(n as nat, m as nat);
    }
}

/// A difference other than zero depends on its exact value alone.
pub proof fn law_difference_by_value(a: Binary32, b: Binary32, c: Binary32, d: Binary32)
    requires
        a.is_finite(),
        b.is_finite(),
        c.is_finite(),
        d.is_finite(),
        a.value() - b.value() == c.value() - d.value(),
        a.value() != b.value(),
    ensures
        a.difference(b) == c.difference(d),
{
    lemma_signed(!b.negative(), b.mag());
    lemma_signed(!d.negative(), d.mag());
}

/// The exact distance of two numbers.
pub open spec fn distance(a: Binary32, b: Binary32) -> int {
    if a.value() < b.value() {
        b.value() - a.value()
    } else {
        a.value() - b.value()
    }
}

/// Rounded distances keep the order of the exact ones.
pub proof fn law_distance_keeps_order(a: Binary32, b: Binary32, c: Binary32, d: Binary32)
    requires
        a.is_finite(),
        b.is_finite(),
        c.is_finite(),
        d.is_finite(),
        distance(a, b) <= distance(c, d),
    ensures
        !a.difference(b).absolute().is_nan(),
        !c.difference(d).absolute().is_nan(),
        a.difference(b).absolute().value() <= c.difference(d).absolute().value(),
{
    let zero = signed(false, 0);
    law_zero_value(zero);
    law_distance_is_symmetric(a, b);
    law_distance_is_symmetric(c, d);
    let (high, low) = if a.value() < b.value() {
        (b, a)
    } else {
        (a, b)
    };
    let (upper, lower) = if c.value() < d.value() {
        (d, c)
    } else {
        (c, d)
    };
    law_difference_keeps_order(high, low, upper, lower);
    law_difference_bounds(high, low, zero);
    law_difference_bounds(upper, lower, zero);
    lemma_absolute(high.difference(low));
    lemma_absolute(upper.difference(lower));
}

proof fn lemma_absolute(x: Binary32)
    requires
        !x.is_nan(),
    ensures
        !x.absolute().is_nan(),
        x.absolute().value() == if x.value() < 0 {
            -x.value()
        } else {
            x.value()
        },
{
    lemma_signed(false, x.mag());
    x.lemma_compare_sizes(x);
}

/// Zero multiplied or divided stays zero, or is not a number.
pub proof fn law_zero_stays_zero(zero: Binary32, other: Binary32)
    requires
        zero.is_zero(),
    ensures
        zero.quotient(other).is_zero() || zero.quotient(other).is_nan(),
        zero.product(other).is_zero() || zero.product(other).is_nan(),
{
    let unit = one_in_units();
    lemma_pow2_pos(149);
    zero.lemma_compare_sizes(other);
    lemma_mul_basics(unit as int);
    lemma_mul_basics(other.size() as int);
    lemma_signed(zero.negative() != other.negative(), 0);
    rounding::law_exact_values_round_to_themselves(0, unit);
    if other.size() > 0 {
        rounding::law_exact_values_round_to_themselves(0, other.size());
    }
}

/// A number that is at most a ratio is at most what the ratio rounds to.
pub proof fn law_ratio_bounds(num: nat, den: nat, y: Binary32)
    requires
        den > 0,
        y.is_finite(),
        0 <= y.value(),
        y.value() * den <= num * one_in_units(),
    ensures
        !ratio(num, den).is_nan(),
        y.value() <= ratio(num, den).value(),
{
    y.lemma_compare_sizes(y);
    lemma_nearest_bounds(num * one_in_units(), den, y.mag());
    lemma_signed(false, rounding::nearest(num * one_in_units(), den));
}

/// A distance that is at least a ratio rounds to no less than the ratio rounds to.
pub proof fn law_distance_reaches_ratio(a: Binary32, b: Binary32, num: nat, den: nat)
    requires
        a.is_finite(),
        b.is_finite(),
        den > 0,
        num * one_in_units() <= distance(a, b) * den,
    ensures
        !ratio(num, den).is_nan(),
        ratio(num, den).value() <= a.difference(b).absolute().value(),
{
    let exact = distance(a, b) as nat;
    let top = num * one_in_units();
    law_distance_is_symmetric(a, b);
    lemma_signed(!a.negative(), a.mag());
    lemma_signed(!b.negative(), b.mag());
    rounding::law_nearest_exists(exact, 1);
    rounding::law_nearest_exists(top, den);
    let near = rounding::nearest(exact, 1);
    lemma_signed(false, near);
    lemma_signed(true, near);
    lemma_signed(false, rounding::nearest(top, den));
    lemma_signed(false, 0);
    rounding::law_rounding_keeps_order(top, exact * den, den);
    rounding::lemma_same_ratio(exact, den);
    if rounding::nearest(top, den) < near {
        rounding::lemma_units_increase(rounding::nearest(top, den) as nat, near as nat);
    }
    if exact == 0 {
        rounding::law_exact_values_round_to_themselves(0, 1);
    }
}

/// A ratio of no more than one is finite.
pub proof fn law_small_ratios_are_finite(num: nat, den: nat)
    requires
        den > 0,
        num <= den,
    ensures
        ratio(num, den).is_finite(),
{
    let one: u32 = 0x3f80_0000;
    lemma2_to64();
    lemma_pow2_adds(23, 126);
    assert(rounding::units(one as nat) == one_in_units());
    assert(num * one_in_units() <= rounding::units(one as nat) * den) by (nonlinear_arith)
        requires
            num <= den,
            rounding::units(one as nat) == one_in_units(),
    ;
    rounding::law_exact_values_round_to_themselves(one, den);
    rounding::law_rounding_keeps_order(
        num * one_in_units(),
        rounding::units(one as nat) * den,
        den,
    );
    lemma_signed(false, rounding::nearest(num * one_in_units(), den));
}

/// Dividing a number that is not negative by a negative one gives none that is positive, and
/// dividing a positive one by zero gives an infinity.
pub proof fn law_quotient_signs(a: Binary32, divisor: Binary32)
    requires
        a.is_finite(),
        a.value() >= 0,
        divisor.is_finite(),
    ensures
        divisor.value() < 0 ==> !a.quotient(divisor).is_nan() && a.quotient(divisor).value() <= 0,
        divisor.value() == 0 && a.value() > 0 ==> a.quotient(divisor).is_infinite(),
{
    let unit = one_in_units();
    a.lemma_compare_sizes(divisor);
    lemma_signed(a.negative() != divisor.negative(), rounding::INFINITE);
    if divisor.size() > 0 {
        rounding::law_nearest_exists(a.size() * unit, divisor.size());
        rounding::law_exact_values_round_to_themselves(0, divisor.size());
        lemma_mul_basics(divisor.size() as int);
        lemma_mul_basics(unit as int);
        lemma_signed(
            a.negative() != divisor.negative(),
            rounding::nearest(a.size() * unit, divisor.size()),
        );
    }
}

} // verus!
