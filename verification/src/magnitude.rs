//! Arithmetic on the magnitudes of binary32 numbers.

use crate::rounding;
use vstd::arithmetic::mul::*;
use vstd::arithmetic::power2::*;
use vstd::prelude::*;

verus! {

/// The significand and the power of two that a magnitude stands for.
pub(crate) fn parts(mag: u32) -> (r: (u64, i32))
    requires
        mag <= rounding::INFINITE,
    ensures
        rounding::units(mag as nat) == r.0 * pow2(r.1 as nat),
        r.0 < 0x100_0000,
        r.1 == (if mag < 0x80_0000 { 0 } else { mag / 0x80_0000 - 1 }),
        r.1 > 0 ==> r.0 >= 0x80_0000,
        r.0 == 0 <==> mag == 0,
{
    proof {
        lemma2_to64();
        lemma_mul_basics(mag as int);
    }
    if mag < 0x80_0000 {
        (mag as u64, 0)
    } else {
        ((0x80_0000 + mag % 0x80_0000) as u64, (mag / 0x80_0000) as i32 - 1)
    }
}

/// Magnitudes at most 36 binary places apart have a common unit that both are whole multiples of.
proof fn lemma_aligned(sa: nat, sb: nat, ea: nat, eb: nat)
    requires
        sa < 0x100_0000,
        eb <= ea <= eb + 36,
    ensures
        sa * pow2(ea) == (sa * pow2((ea - eb) as nat)) * pow2(eb),
        sa * pow2((ea - eb) as nat) < 0x1000_0000_0000_0000,
        sb * pow2(eb) <= sa * pow2(ea) ==> sb <= sa * pow2((ea - eb) as nat),
{
    let d = (ea - eb) as nat;
    let p = pow2(d);
    let unit = pow2(eb);
    lemma_pow2_adds(d, eb);
    lemma_pow2_pos(eb);
    lemma2_to64_rest();
    assert(p <= 0x10_0000_0000) by {
        if d < 36 {
            lemma_pow2_strictly_increases(d, 36);
        }
    }
    assert(sa * pow2(ea) == (sa * p) * unit) by (nonlinear_arith)
        requires
            pow2(ea) == p * unit,
    ;
    assert(sa * p < 0x1000_0000_0000_0000) by (nonlinear_arith)
        requires
            sa < 0x100_0000,
            p <= 0x10_0000_0000,
    ;
    if sb * unit <= sa * pow2(ea) {
        lemma_mul_inequality_converse(sb as int, (sa * p) as int, unit as int);
    }
}

/// A magnitude more than 36 binary places below another is less than the latter's last digit,
/// shifted by 12 places.
proof fn lemma_far_below(sa: nat, sb: nat, ea: nat, eb: nat)
    requires
        sb < 0x100_0000,
        ea > eb + 36,
    ensures
        sa * pow2(ea) == (sa * 4096) * pow2((ea - 12) as nat),
        sb * pow2(eb) < pow2((ea - 12) as nat),
        sb > 0 ==> sb * pow2(eb) > 0,
{
    let unit = pow2((ea - 12) as nat);
    lemma2_to64();
    lemma_pow2_adds(12, (ea - 12) as nat);
    assert(sa * (4096 * unit) == (sa * 4096) * unit) by (nonlinear_arith);
    lemma_pow2_pos(eb);
    lemma_mul_strict_inequality(sb as int, 0x100_0000, pow2(eb) as int);
    lemma_pow2_adds(24, eb);
    lemma_pow2_strictly_increases(24 + eb, (ea - 12) as nat);
    if sb > 0 {
        lemma_mul_strictly_positive(sb as int, pow2(eb) as int);
    }
}

/// The magnitude nearest to the sum of two, or to their difference.
pub(crate) fn combine(a: u32, b: u32, subtract: bool) -> (mag: u32)
    requires
        b <= a < rounding::INFINITE,
    ensures
        rounding::units(b as nat) <= rounding::units(a as nat),
        mag == rounding::nearest(
            (if subtract {
                rounding::units(a as nat) - rounding::units(b as nat)
            } else {
                (rounding::units(a as nat) + rounding::units(b as nat)) as int
            }) as nat,
            1,
        ),
        mag <= rounding::INFINITE,
{
    let (sa, ea): (u64, i32) = parts(a);
    let (sb, eb): (u64, i32) = parts(b);
    let ghost ua = rounding::units(a as nat);
    let ghost ub = rounding::units(b as nat);
    let ghost num = (if subtract { ua - ub } else { (ua + ub) as int }) as nat;
    proof {
        if b < a {
            rounding::lemma_units_increase(b as nat, a as nat);
        }
    }
    let d: i32 = ea - eb;
    if d <= 36 {
        proof {
            lemma_aligned(sa as nat, sb as nat, ea as nat, eb as nat);
        }
        let p = rounding::power_of_two(d as u32);
        let wide = sa * p;
        let q = if subtract {
            wide - sb
        } else {
            wide + sb
        };
        proof {
            let unit = pow2(eb as nat);
            lemma2_to64();
            lemma_mul_basics(num as int);
            lemma_mul_basics(unit as int);
            lemma_mul_is_distributive_add_other_way(unit as int, wide as int, sb as int);
            lemma_mul_is_distributive_sub_other_way(unit as int, wide as int, sb as int);
        }
        rounding::round(q, eb, false, Ghost(num), Ghost(1))
    } else {
        let q = sa * 4096;
        let inexact = sb != 0;
        let low = if subtract && inexact {
            q - 1
        } else {
            q
        };
        proof {
            let unit = pow2((ea - 12) as nat);
            lemma_far_below(sa as nat, sb as nat, ea as nat, eb as nat);
            lemma2_to64();
            lemma_mul_basics(num as int);
            lemma_mul_basics(unit as int);
            lemma_mul_is_distributive_sub_other_way(unit as int, q as int, 1);
            lemma_mul_basics(pow2(eb as nat) as int);
        }
        rounding::round(low, ea - 12, inexact, Ghost(num), Ghost(1))
    }
}

/// The magnitude nearest to the product of two.
pub(crate) fn multiply(a: u32, b: u32) -> (mag: u32)
    requires
        a < rounding::INFINITE,
        b < rounding::INFINITE,
    ensures
        mag == rounding::nearest(
            rounding::units(a as nat) * rounding::units(b as nat),
            pow2(149),
        ),
        mag <= rounding::INFINITE,
{
    let (sa, ea): (u64, i32) = parts(a);
    let (sb, eb): (u64, i32) = parts(b);
    let ghost num = rounding::units(a as nat) * rounding::units(b as nat);
    assert(sa * sb < 0x1_0000_0000_0000) by (nonlinear_arith)
        requires
            sa < 0x100_0000,
            sb < 0x100_0000,
    ;
    let q = sa * sb;
    let e: i32 = ea + eb - 149;
    proof {
        let up_place = if e >= 0 { e as nat } else { 0 };
        let down_place = if e >= 0 { 0 } else { (-e) as nat };
        let pa = pow2(ea as nat);
        let pb = pow2(eb as nat);
        let up = pow2(up_place);
        let down = pow2(down_place);
        lemma_pow2_adds(ea as nat, eb as nat);
        lemma_pow2_adds(up_place, 149);
        lemma_pow2_adds((ea + eb) as nat, down_place);
        lemma_pow2_pos(149);
        assert(up * pow2(149) == (pa * pb) * down);
        assert(q * (up * pow2(149)) == num * down) by (nonlinear_arith)
            requires
                q == sa * sb,
                num == (sa * pa) * (sb * pb),
                up * pow2(149) == (pa * pb) * down,
        ;
    }
    rounding::round(q, e, false, Ghost(num), Ghost(pow2(149)))
}

/// `num / den` is `n / d * 2^e`.
pub(crate) open spec fn same_quotient(n: nat, d: nat, e: int, num: nat, den: nat) -> bool {
    let up = pow2(if e >= 0 { e as nat } else { 0 });
    let down = pow2(if e >= 0 { 0 } else { (-e) as nat });
    num * down * d == n * up * den
}

/// A dividend shifted by `s` places gives digits of the quotient from `2^(e - s)` on.
proof fn lemma_shifted_quotient(
    n: nat,
    d: nat,
    e: int,
    s: nat,
    num: nat,
    den: nat,
    q: nat,
    r: nat,
)
    requires
        d > 0,
        den > 0,
        same_quotient(n, d, e, num, den),
        n * pow2(s) == q * d + r,
        r < d,
    ensures
        rounding::brackets(q, e - s, r != 0, num, den),
{
    let up_place = if e >= 0 { e as nat } else { 0 };
    let down_place = if e >= 0 { 0 } else { (-e) as nat };
    let f = e - s;
    let new_up_place = if f >= 0 { f as nat } else { 0 };
    let new_down_place = if f >= 0 { 0 } else { (-f) as nat };
    let up = pow2(up_place);
    let down = pow2(down_place);
    let new_up = pow2(new_up_place);
    let new_down = pow2(new_down_place);
    let p = pow2(s);
    lemma_pow2_pos(down_place);
    lemma_pow2_pos(new_up_place);
    lemma_pow2_adds(up_place, new_down_place);
    lemma_pow2_adds(new_up_place, down_place);
    lemma_pow2_adds(new_up_place + down_place, s);
    assert(up * new_down == (new_up * down) * p);
    let v = new_up * den;
    let x = num * new_down;
    assert(v > 0) by (nonlinear_arith)
        requires
            v == new_up * den,
            new_up > 0,
            den > 0,
    ;
    assert((x * d) * down == ((q * d + r) * v) * down) by (nonlinear_arith)
        requires
            num * down * d == n * up * den,
            up * new_down == (new_up * down) * p,
            n * p == q * d + r,
            x == num * new_down,
            v == new_up * den,
    {
        assert((x * d) * down == (num * down * d) * new_down);
        assert((n * up * den) * new_down == (n * den) * (up * new_down));
        assert((n * den) * ((new_up * down) * p) == ((n * p) * v) * down);
    }
    assert(x * d == (q * d + r) * v) by {
        lemma_mul_is_commutative(down as int, (x * d) as int);
        lemma_mul_is_commutative(down as int, ((q * d + r) * v) as int);
        lemma_mul_equality_converse(down as int, (x * d) as int, ((q * d + r) * v) as int);
    }
    let low = q * v;
    assert((q * d + r) * v == low * d + r * v) by (nonlinear_arith)
        requires
            low == q * v,
    ;
    if r == 0 {
        lemma_mul_basics(v as int);
        lemma_mul_is_commutative(d as int, x as int);
        lemma_mul_is_commutative(d as int, low as int);
        lemma_mul_equality_converse(d as int, x as int, low as int);
    } else {
        assert(0 < r * v < v * d) by (nonlinear_arith)
            requires
                0 < r < d,
                v > 0,
        ;
        assert((low + v) * d == low * d + v * d) by (nonlinear_arith);
        lemma_mul_strict_inequality_converse(low as int, x as int, d as int);
        lemma_mul_strict_inequality_converse(x as int, (low + v) as int, d as int);
    }
}

/// The magnitude nearest to `n / d * 2^e` units.
pub(crate) fn divide(
    n: u64,
    d: u64,
    e: i32,
    Ghost(num): Ghost<nat>,
    Ghost(den): Ghost<nat>,
) -> (mag: u32)
    requires
        n <= 0xffff_ffff,
        0 < d <= 0xffff_ffff,
        -300 <= e <= 600,
        den > 0,
        same_quotient(n as nat, d as nat, e as int, num, den),
    ensures
        mag == rounding::nearest(num, den),
        mag <= rounding::INFINITE,
{
    let len = rounding::bit_length(n);
    proof {
        lemma2_to64();
        lemma2_to64_rest();
        if len > 32 {
            if len > 33 {
                lemma_pow2_strictly_increases(32, (len - 1) as nat);
            }
        }
    }
    let s: u32 = 62 - len;
    let p = rounding::power_of_two(s);
    proof {
        lemma_pow2_adds(len as nat, s as nat);
        lemma_pow2_pos(s as nat);
        lemma_mul_strict_inequality(n as int, pow2(len as nat) as int, p as int);
        if n > 0 {
            lemma_pow2_adds((len - 1) as nat, s as nat);
            lemma_mul_inequality(pow2((len - 1) as nat) as int, n as int, p as int);
        }
        assert(n > 0 ==> n * p >= 0x2000_0000_0000_0000);
        assert(n * p < 0x4000_0000_0000_0000);
    }
    let wide = n * p;
    let q = wide / d;
    let r = wide % d;
    proof {
        vstd::arithmetic::div_mod::lemma_fundamental_div_mod(wide as int, d as int);
        lemma_mul_is_commutative(d as int, q as int);
        assert(q <= wide) by (nonlinear_arith)
            requires
                wide == q * d + r,
                d > 0,
        ;
        lemma_shifted_quotient(
            n as nat,
            d as nat,
            e as int,
            s as nat,
            num,
            den,
            q as nat,
            r as nat,
        );
        if n > 0 {
            assert(q >= 0x100_0000) by (nonlinear_arith)
                requires
                    wide == q * d + r,
                    wide >= 0x2000_0000_0000_0000,
                    d <= 0xffff_ffff,
                    r < d,
            ;
        } else {
            assert(wide == 0) by {
                lemma_mul_basics(p as int);
            }
            assert(r == 0) by {
                vstd::arithmetic::div_mod::lemma_small_mod(0, d as nat);
            }
        }
    }
    rounding::round(q, e - s as i32, r != 0, Ghost(num), Ghost(den))
}

/// The magnitude nearest to the quotient of two.
pub(crate) fn quotient(a: u32, b: u32) -> (mag: u32)
    requires
        a < rounding::INFINITE,
        0 < b < rounding::INFINITE,
    ensures
        mag == rounding::nearest(
            rounding::units(a as nat) * pow2(149),
            rounding::units(b as nat),
        ),
        mag <= rounding::INFINITE,
{
    let (sa, ea): (u64, i32) = parts(a);
    let (sb, eb): (u64, i32) = parts(b);
    let ghost num = rounding::units(a as nat) * pow2(149);
    let ghost den = rounding::units(b as nat);
    let e: i32 = ea + 149 - eb;
    proof {
        let up_place = if e >= 0 { e as nat } else { 0 };
        let down_place = if e >= 0 { 0 } else { (-e) as nat };
        let pa = pow2(ea as nat);
        let pb = pow2(eb as nat);
        let up = pow2(up_place);
        let down = pow2(down_place);
        lemma_pow2_adds(ea as nat, 149);
        lemma_pow2_adds((ea + 149) as nat, down_place);
        lemma_pow2_adds(up_place, eb as nat);
        lemma_pow2_pos(eb as nat);
        lemma_mul_strictly_positive(sb as int, pb as int);
        assert(num * down * sb == sa * up * den) by (nonlinear_arith)
            requires
                num == (sa * pa) * pow2(149),
                den == sb * pb,
                (pa * pow2(149)) * down == up * pb,
        {
            assert(num * down * sb == (sa * sb) * ((pa * pow2(149)) * down));
            assert(sa * up * den == (sa * sb) * (up * pb));
        }
    }
    divide(sa, sb, e, Ghost(num), Ghost(den))
}

/// The whole number of units of `2^149` in a magnitude, as far as it can be counted.
pub(crate) fn whole(mag: u32) -> (count: u64)
    requires
        mag < rounding::INFINITE,
    ensures
        ({
            let exact = rounding::units(mag as nat) / pow2(149);
            count == if exact > u64::MAX { u64::MAX as nat } else { exact }
        }),
{
    let (m, e): (u64, i32) = parts(mag);
    let ghost unit = pow2(149);
    let ghost size = rounding::units(mag as nat);
    proof {
        lemma2_to64();
        lemma2_to64_rest();
        lemma_pow2_pos(149);
    }
    if e >= 149 {
        let s: u32 = (e - 149) as u32;
        proof {
            let p = pow2(s as nat);
            lemma_pow2_adds(s as nat, 149);
            assert(size == (m * p) * unit) by (nonlinear_arith)
                requires
                    size == m * pow2(e as nat),
                    pow2(e as nat) == p * unit,
            ;
            vstd::arithmetic::div_mod::lemma_div_by_multiple((m * p) as int, unit as int);
            if s > 40 {
                lemma_pow2_strictly_increases(40, s as nat);
                lemma_pow2_unfold(41);
                if s > 41 {
                    lemma_pow2_strictly_increases(41, s as nat);
                }
                assert(m * p > u64::MAX) by (nonlinear_arith)
                    requires
                        m >= 0x80_0000,
                        p >= 0x200_0000_0000,
                ;
            } else {
                if s < 40 {
                    lemma_pow2_strictly_increases(s as nat, 40);
                }
                assert(m * p <= u64::MAX) by (nonlinear_arith)
                    requires
                        m < 0x100_0000,
                        p <= 0x100_0000_0000,
                ;
            }
        }
        if s > 40 {
            u64::MAX
        } else {
            m * rounding::power_of_two(s)
        }
    } else {
        let s: u32 = (149 - e) as u32;
        proof {
            let p = pow2(s as nat);
            lemma_pow2_adds(s as nat, e as nat);
            lemma_pow2_pos(s as nat);
            lemma_pow2_pos(e as nat);
            lemma_mul_is_commutative(m as int, pow2(e as nat) as int);
            lemma_mul_is_commutative(p as int, pow2(e as nat) as int);
            vstd::arithmetic::div_mod::lemma_div_denominator(
                size as int,
                pow2(e as nat) as int,
                p as int,
            );
            vstd::arithmetic::div_mod::lemma_div_multiples_vanish(m as int, pow2(e as nat) as int);
            assert(size / unit == m as nat / p);
            if s >= 24 {
                if s > 24 {
                    lemma_pow2_strictly_increases(24, s as nat);
                }
                vstd::arithmetic::div_mod::lemma_basic_div(m as int, p as int);
            }
            vstd::arithmetic::div_mod::lemma_div_is_ordered_by_denominator(m as int, 1, p as int);
        }
        if s >= 24 {
            0
        } else {
            m / rounding::power_of_two(s)
        }
    }
}

} // verus!
