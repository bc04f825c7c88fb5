//! Magnitudes of IEEE 754 binary32 numbers and rounding to the nearest of them.
//!
//! A magnitude is the low 31 bits of a binary32 encoding. Every finite magnitude is a whole number
//! of units of 2^-149, the smallest subnormal, so the exact value of a number is an integer here
//! and the exact result of an operation is a quotient of two integers.

use vstd::prelude::*;
use vstd::arithmetic::power2::*;
use vstd::arithmetic::mul::*;

verus! {

/// The magnitude that encodes infinity. Larger ones encode "not a number".
pub const INFINITE: u32 = 0x7f80_0000;

/// The value that the magnitude `mag` encodes, in units of 2^-149. At `INFINITE` this is 2^277, the
/// power of two that follows the largest finite value.
pub open spec fn units(mag: nat) -> nat {
    if mag < 0x80_0000 {
        mag
    } else {
        (0x80_0000 + mag % 0x80_0000) * pow2((mag / 0x80_0000 - 1) as nat)
    }
}

/// `num / den` is not below the midpoint between `mag` and its predecessor, and lies on it only if
/// `mag` is even.
pub open spec fn reaches(num: nat, den: nat, mag: nat) -> bool {
    mag > 0 ==> {
        let midpoint = (units((mag - 1) as nat) + units(mag)) * den;
        2 * num > midpoint || (2 * num == midpoint && mag % 2 == 0)
    }
}

/// `num / den` is not above the midpoint between `mag` and its successor, and lies on it only if
/// `mag` is even.
pub open spec fn stays_within(num: nat, den: nat, mag: nat) -> bool {
    let midpoint = (units(mag) + units(mag + 1)) * den;
    2 * num < midpoint || (2 * num == midpoint && mag % 2 == 0)
}

/// `mag` is the magnitude nearest to `num / den` units, the even one of two that are equally near.
/// What is too large for a finite magnitude rounds to infinity.
pub open spec fn is_nearest(num: nat, den: nat, mag: nat) -> bool {
    &&& mag <= INFINITE
    &&& reaches(num, den, mag)
    &&& mag < INFINITE ==> stays_within(num, den, mag)
}

/// The magnitude nearest to `num / den` units.
pub open spec fn nearest(num: nat, den: nat) -> u32 {
    choose|mag: u32| is_nearest(num, den, mag as nat)
}

/// A magnitude written as a significand and a power of two.
pub proof fn lemma_units_of_parts(k: nat, m: nat)
    requires
        m <= 0x100_0000,
        k > 0 ==> m >= 0x80_0000,
    ensures
        units(k * 0x80_0000 + m) == m * pow2(k),
{
    let mag = k * 0x80_0000 + m;
    assert(pow2(0) == 1) by {
        lemma2_to64();
    }
    if mag < 0x80_0000 {
        assert(k == 0);
    } else if m < 0x100_0000 {
        assert(mag / 0x80_0000 == k + 1 && mag % 0x80_0000 == m - 0x80_0000) by {
            assert(mag == (k + 1) * 0x80_0000 + (m - 0x80_0000));
        }
    } else {
        assert(mag / 0x80_0000 == k + 2 && mag % 0x80_0000 == 0);
        lemma_pow2_unfold(k + 1);
        assert(0x80_0000 * (2 * pow2(k)) == 0x100_0000 * pow2(k));
    }
}

/// Every magnitude has such a form, with a significand that can still grow by one.
pub proof fn lemma_parts_of_units(mag: nat) -> (parts: (nat, nat))
    ensures
        mag == parts.0 * 0x80_0000 + parts.1,
        parts.1 < 0x100_0000,
        parts.0 > 0 ==> parts.1 >= 0x80_0000,
        units(mag) == parts.1 * pow2(parts.0),
        units(mag + 1) == (parts.1 + 1) * pow2(parts.0),
{
    let k = if mag < 0x80_0000 {
        0nat
    } else {
        (mag / 0x80_0000 - 1) as nat
    };
    let m = (mag - k * 0x80_0000) as nat;
    lemma_units_of_parts(k, m);
    lemma_units_of_parts(k, m + 1);
    assert(mag + 1 == k * 0x80_0000 + (m + 1));
    (k, m)
}

/// A larger magnitude encodes a larger value.
pub proof fn lemma_units_increase(a: nat, b: nat)
    requires
        a < b,
    ensures
        units(a) < units(b),
    decreases b,
{
    let before = (b - 1) as nat;
    let (k, m) = lemma_parts_of_units(before);
    lemma_pow2_pos(k);
    assert((m + 1) * pow2(k) == m * pow2(k) + pow2(k)) by (nonlinear_arith);
    if a < before {
        lemma_units_increase(a, before);
    }
}

/// A magnitude above another one that `num / den` stays within is not reached.
proof fn lemma_not_reached(num: nat, den: nat, a: nat, b: nat)
    requires
        den > 0,
        stays_within(num, den, a),
        a < b,
    ensures
        !reaches(num, den, b),
{
    let before = (b - 1) as nat;
    if a < before {
        lemma_units_increase(a, before);
        lemma_units_increase(a + 1, b);
        let low = units(a) + units(a + 1);
        let high = units(before) + units(b);
        lemma_mul_strict_inequality(low as int, high as int, den as int);
    }
}

/// At most one magnitude is nearest.
pub proof fn lemma_nearest_unique(num: nat, den: nat, a: nat, b: nat)
    requires
        den > 0,
        is_nearest(num, den, a),
        is_nearest(num, den, b),
    ensures
        a == b,
{
    if a < b {
        lemma_not_reached(num, den, a, b);
    } else if b < a {
        lemma_not_reached(num, den, b, a);
    }
}

/// What was found to be nearest is the value of `nearest`.
pub proof fn lemma_nearest_is(num: nat, den: nat, mag: u32)
    requires
        den > 0,
        is_nearest(num, den, mag as nat),
    ensures
        nearest(num, den) == mag,
{
    lemma_nearest_unique(num, den, mag as nat, nearest(num, den) as nat);
}

proof fn lemma_nearest_from(num: nat, den: nat, mag: nat) -> (found: u32)
    requires
        mag <= INFINITE,
        reaches(num, den, mag),
    ensures
        is_nearest(num, den, found as nat),
    decreases INFINITE - mag,
{
    if mag < INFINITE && reaches(num, den, mag + 1) {
        lemma_nearest_from(num, den, mag + 1)
    } else {
        mag as u32
    }
}

/// There is always a nearest magnitude.
pub proof fn law_nearest_exists(num: nat, den: nat)
    ensures
        is_nearest(num, den, nearest(num, den) as nat),
{
    let found = lemma_nearest_from(num, den, 0);
    assert(is_nearest(num, den, found as nat));
}

/// Rounding keeps the order: what is not larger does not round to more.
pub proof fn law_rounding_keeps_order(a: nat, b: nat, den: nat)
    requires
        den > 0,
        a <= b,
    ensures
        nearest(a, den) <= nearest(b, den),
{
    law_nearest_exists(a, den);
    law_nearest_exists(b, den);
    if nearest(b, den) < nearest(a, den) {
        lemma_not_reached(b, den, nearest(b, den) as nat, nearest(a, den) as nat);
    }
}

/// A quotient rounds the same however it is written.
pub proof fn lemma_same_ratio(num: nat, den: nat)
    requires
        den > 0,
    ensures
        nearest(num * den, den) == nearest(num, 1),
{
    law_nearest_exists(num, 1);
    let mag = nearest(num, 1) as nat;
    if mag > 0 {
        let low = units((mag - 1) as nat) + units(mag);
        assert(2 * num >= low ==> 2 * (num * den) >= low * den) by (nonlinear_arith);
        assert(2 * num > low && den > 0 ==> 2 * (num * den) > low * den) by (nonlinear_arith);
    }
    let high = units(mag) + units(mag + 1);
    assert(2 * num == high ==> 2 * (num * den) == high * den) by (nonlinear_arith);
    assert(2 * num < high && den > 0 ==> 2 * (num * den) < high * den) by (nonlinear_arith);
    if mag > 0 {
        let low = units((mag - 1) as nat) + units(mag);
        assert(2 * num == low ==> 2 * (num * den) == low * den) by (nonlinear_arith);
    }
    assert(is_nearest(num * den, den, mag));
    lemma_nearest_is(num * den, den, nearest(num, 1));
}

/// What a magnitude encodes exactly rounds to that magnitude.
pub proof fn law_exact_values_round_to_themselves(mag: u32, den: nat)
    requires
        den > 0,
        mag <= INFINITE,
    ensures
        nearest(units(mag as nat) * den, den) == mag,
{
    let exact = units(mag as nat);
    lemma_units_increase(mag as nat, mag as nat + 1);
    lemma_mul_strict_inequality(
        2 * exact as int,
        (exact + units(mag as nat + 1)) as int,
        den as int,
    );
    assert(2 * (exact * den) == (2 * exact) * den) by (nonlinear_arith);
    if mag > 0 {
        let before = (mag - 1) as nat;
        lemma_units_increase(before, mag as nat);
        lemma_mul_strict_inequality((units(before) + exact) as int, 2 * exact as int, den as int);
    }
    lemma_nearest_is(exact * den, den, mag);
}

/// `q * 2^e` is `num / den`, or the multiple of `2^e` next below it where `inexact` holds.
pub open spec fn brackets(q: nat, e: int, inexact: bool, num: nat, den: nat) -> bool {
    let up = pow2(if e >= 0 { e as nat } else { 0 });
    let down = pow2(if e >= 0 { 0 } else { (-e) as nat });
    let low = q * (up * den);
    if inexact {
        low < num * down < low + up * den
    } else {
        low == num * down
    }
}

/// The significand that `m0 + r / 2^t` rounds to, where `p` is `2^t`.
spec fn rounded(m0: nat, r: nat, p: nat, inexact: bool) -> nat {
    if 2 * r > p || (2 * r == p && (inexact || m0 % 2 == 1)) {
        m0 + 1
    } else {
        m0
    }
}

/// The rounded significand `m` is within half a step `h = p * u` of the exact value `a`.
proof fn lemma_rounded_within_half(a: nat, m0: nat, r: nat, p: nat, u: nat, inexact: bool)
    requires
        u > 0,
        r < p,
        p % 2 == 0,
        inexact ==> (m0 * p + r) * u < a < (m0 * p + r) * u + u,
        !inexact ==> (m0 * p + r) * u == a,
    ensures
        ({
            let m = rounded(m0, r, p, inexact);
            let h = p * u;
            &&& 2 * a < 2 * (m * h) + h || (2 * a == 2 * (m * h) + h && m % 2 == 0)
            &&& 2 * a + h > 2 * (m * h) || (2 * a + h == 2 * (m * h) && m % 2 == 0)
            &&& m == m0 ==> a >= m * h
            &&& h > 0
        }),
{
    let h = p * u;
    let half = p / 2;
    let ru = r * u;
    let hu = half * u;
    assert(h > 0 && ru + u <= h) by (nonlinear_arith)
        requires
            h == p * u,
            ru == r * u,
            r < p,
            u > 0,
    ;
    assert((m0 * p + r) * u == m0 * h + ru) by (nonlinear_arith)
        requires
            h == p * u,
            ru == r * u,
    ;
    assert(2 * hu == h) by (nonlinear_arith)
        requires
            h == p * u,
            hu == half * u,
            p == 2 * half,
    ;
    assert(r < half ==> ru + u <= hu) by (nonlinear_arith)
        requires
            ru == r * u,
            hu == half * u,
    ;
    assert(r > half ==> ru >= hu + u) by (nonlinear_arith)
        requires
            ru == r * u,
            hu == half * u,
    ;
    assert((m0 + 1) * h == m0 * h + h) by (nonlinear_arith);
}

/// The magnitude above a significand `m` is at least one step away.
proof fn lemma_next_units(k: nat, m: nat)
    requires
        m <= 0x100_0000,
        k > 0 ==> m >= 0x80_0000,
    ensures
        units(k * 0x80_0000 + m + 1) >= (m + 1) * pow2(k),
{
    let step = pow2(k);
    if m < 0x100_0000 {
        lemma_units_of_parts(k, m + 1);
        assert(k * 0x80_0000 + m + 1 == k * 0x80_0000 + (m + 1));
    } else {
        lemma_units_of_parts(k + 1, 0x80_0001);
        assert(k * 0x80_0000 + m + 1 == (k + 1) * 0x80_0000 + 0x80_0001);
        lemma_pow2_unfold(k + 1);
        assert(0x80_0001 * (2 * step) >= (m + 1) * step) by (nonlinear_arith)
            requires
                m == 0x100_0000,
        ;
    }
}

proof fn lemma_stays_within(num: nat, den: nat, down: nat, k: nat, m: nat, h: nat)
    requires
        den > 0,
        down > 0,
        m <= 0x100_0000,
        k > 0 ==> m >= 0x80_0000,
        h == pow2(k) * (den * down),
        2 * (num * down) < 2 * (m * h) + h || (2 * (num * down) == 2 * (m * h) + h && m % 2 == 0),
    ensures
        stays_within(num, den, k * 0x80_0000 + m),
{
    let mag = k * 0x80_0000 + m;
    let w = den * down;
    let step = pow2(k);
    let here = units(mag);
    let next = units(mag + 1);
    lemma_units_of_parts(k, m);
    lemma_next_units(k, m);
    assert(mag % 2 == m % 2) by {
        assert(k * 0x80_0000 == 2 * (k * 0x40_0000));
    }
    let sum = here + next;
    assert(sum * w >= 2 * (m * h) + h) by (nonlinear_arith)
        requires
            here == m * step,
            next >= (m + 1) * step,
            h == step * w,
            sum == here + next,
    ;
    assert(sum * w == (sum * den) * down) by (nonlinear_arith)
        requires
            w == den * down,
    ;
    assert(2 * (num * down) == (2 * num) * down) by (nonlinear_arith);
    lemma_compare_scaled(2 * num, sum * den, down);
}

proof fn lemma_reaches(num: nat, den: nat, down: nat, k: nat, m: nat, h: nat)
    requires
        den > 0,
        down > 0,
        m <= 0x100_0000,
        k > 0 ==> m >= 0x80_0000,
        h == pow2(k) * (den * down),
        2 * (num * down) + h > 2 * (m * h) || (2 * (num * down) + h == 2 * (m * h) && m % 2 == 0),
        k > 0 && m == 0x80_0000 ==> num * down >= m * h,
    ensures
        reaches(num, den, k * 0x80_0000 + m),
{
    let mag = k * 0x80_0000 + m;
    if mag > 0 {
        let w = den * down;
        let step = pow2(k);
        let here = units(mag);
        let before = units((mag - 1) as nat);
        lemma_units_of_parts(k, m);
        assert(mag % 2 == m % 2) by {
            assert(k * 0x80_0000 == 2 * (k * 0x40_0000));
        }
        let sum = before + here;
        assert(w > 0) by (nonlinear_arith)
            requires
                w == den * down,
                den > 0,
                down > 0,
        ;
        if k > 0 && m == 0x80_0000 {
            lemma_units_increase((mag - 1) as nat, mag);
            assert(sum * w < 2 * (m * h)) by (nonlinear_arith)
                requires
                    here == m * step,
                    before < here,
                    h == step * w,
                    sum == before + here,
                    w > 0,
            ;
        } else {
            lemma_units_of_parts(k, (m - 1) as nat);
            assert((mag - 1) as nat == k * 0x80_0000 + (m - 1));
            assert(sum * w == 2 * (m * h) - h) by (nonlinear_arith)
                requires
                    here == m * step,
                    before == (m - 1) * step,
                    h == step * w,
                    sum == before + here,
            ;
        }
        assert(sum * w == (sum * den) * down) by (nonlinear_arith)
            requires
                w == den * down,
        ;
        assert(2 * (num * down) == (2 * num) * down) by (nonlinear_arith);
        lemma_compare_scaled(sum * den, 2 * num, down);
    }
}

proof fn lemma_compare_scaled(x: nat, y: nat, scale: nat)
    requires
        scale > 0,
    ensures
        x < y <==> x * scale < y * scale,
        x == y <==> x * scale == y * scale,
{
    if x < y {
        lemma_mul_strict_inequality(x as int, y as int, scale as int);
    } else if y < x {
        lemma_mul_strict_inequality(y as int, x as int, scale as int);
    }
}

/// Two to the power `n`.
pub(crate) fn power_of_two(n: u32) -> (p: u64)
    requires
        n <= 63,
    ensures
        p == pow2(n as nat),
{
    let mut p: u64 = 1;
    let mut i: u32 = 0;
    proof {
        lemma2_to64();
    }
    while i < n
        invariant
            i <= n <= 63,
            p == pow2(i as nat),
        decreases n - i,
    {
        proof {
            lemma_pow2_unfold((i + 1) as nat);
            lemma_pow2_at_most_63((i + 1) as nat);
        }
        p = 2 * p;
        i = i + 1;
    }
    p
}

proof fn lemma_pow2_at_most_63(n: nat)
    requires
        n <= 63,
    ensures
        pow2(n) <= 0x8000_0000_0000_0000,
{
    lemma2_to64_rest();
    if n < 63 {
        lemma_pow2_strictly_increases(n, 63);
    }
}

/// The number of binary digits of `q`, none for zero.
pub(crate) fn bit_length(q: u64) -> (n: u32)
    ensures
        n <= 64,
        q < pow2(n as nat),
        n > 0 ==> pow2((n - 1) as nat) <= q,
{
    let mut rest: u64 = q;
    let mut n: u32 = 0;
    proof {
        lemma2_to64();
    }
    while rest > 0
        invariant
            n <= 64,
            rest * pow2(n as nat) <= q < (rest + 1) * pow2(n as nat),
            n > 0 ==> pow2((n - 1) as nat) <= q,
        decreases rest,
    {
        let ghost p = pow2(n as nat);
        let half = rest / 2;
        proof {
            lemma_pow2_unfold((n + 1) as nat);
            assert(half * (2 * p) <= q < (half + 1) * (2 * p) && p <= q) by (nonlinear_arith)
                requires
                    rest * p <= q < (rest + 1) * p,
                    2 * half <= rest <= 2 * half + 1,
                    rest >= 1,
            ;
            if n == 64 {
                lemma2_to64_rest();
            }
        }
        rest = half;
        n = n + 1;
    }
    assert((rest + 1) * pow2(n as nat) == pow2(n as nat)) by (nonlinear_arith)
        requires
            rest == 0,
    ;
    n
}

/// A product of a number below `2^n` with `2^s`.
proof fn lemma_shifted(q: nat, n: nat, s: nat)
    requires
        q < pow2(n),
    ensures
        q * pow2(s) < pow2(n + s),
        n > 0 && pow2((n - 1) as nat) <= q ==> pow2((n + s - 1) as nat) <= q * pow2(s),
{
    lemma_pow2_pos(s);
    lemma_pow2_adds(n, s);
    lemma_mul_strict_inequality(q as int, pow2(n) as int, pow2(s) as int);
    if n > 0 && pow2((n - 1) as nat) <= q {
        lemma_pow2_adds((n - 1) as nat, s);
        lemma_mul_inequality(pow2((n - 1) as nat) as int, q as int, pow2(s) as int);
    }
}

proof fn lemma_pow2_ordered(a: nat, b: nat)
    requires
        a <= b,
    ensures
        pow2(a) <= pow2(b),
{
    if a < b {
        lemma_pow2_strictly_increases(a, b);
    }
}

/// Digits that end at or above the place of the last significand digit need no rounding.
proof fn lemma_exact_significand(q: nat, n: nat, e: nat, k: nat, num: nat, den: nat)
    requires
        den > 0,
        q < pow2(n),
        n > 0 ==> pow2((n - 1) as nat) <= q,
        k == (if q == 0 || e + n < 24 { 0 } else { e + n - 24 }),
        k <= e,
        brackets(q, e as int, false, num, den),
    ensures
        ({
            let m = q * pow2((e - k) as nat);
            &&& m <= 0x100_0000
            &&& k > 0 ==> m >= 0x80_0000
            &&& reaches(num, den, k * 0x80_0000 + m)
            &&& stays_within(num, den, k * 0x80_0000 + m)
        }),
{
    let s = (e - k) as nat;
    let m = q * pow2(s);
    let h = pow2(k) * den;
    lemma2_to64();
    if q > 0 {
        lemma_shifted(q, n, s);
        lemma_pow2_ordered(n + s, 24);
    } else {
        assert(0 * pow2(s) == 0);
    }
    lemma_pow2_adds(k, s);
    lemma_pow2_pos(k);
    assert(num * 1 == m * h) by (nonlinear_arith)
        requires
            num == q * (pow2(e) * den),
            pow2(e) == pow2(k) * pow2(s),
            m == q * pow2(s),
            h == pow2(k) * den,
    ;
    assert(h > 0) by (nonlinear_arith)
        requires
            h == pow2(k) * den,
            pow2(k) > 0,
            den > 0,
    ;
    lemma_stays_within(num, den, 1, k, m, h);
    lemma_reaches(num, den, 1, k, m, h);
}

/// Digits below the place of the last significand digit are rounded away.
proof fn lemma_rounded_significand(
    q: nat,
    n: nat,
    e: int,
    k: nat,
    inexact: bool,
    num: nat,
    den: nat,
)
    requires
        den > 0,
        q < pow2(n),
        n > 0 ==> pow2((n - 1) as nat) <= q,
        k == (if q == 0 || e + n < 24 { 0 } else { e + n - 24 }),
        e < k,
        brackets(q, e, inexact, num, den),
    ensures
        ({
            let p = pow2((k - e) as nat);
            let m = rounded(q / p, q % p, p, inexact);
            &&& p > 0
            &&& m <= 0x100_0000
            &&& k > 0 ==> m >= 0x80_0000
            &&& reaches(num, den, k * 0x80_0000 + m)
            &&& stays_within(num, den, k * 0x80_0000 + m)
        }),
{
    let t = (k - e) as nat;
    let p = pow2(t);
    let up_place = if e >= 0 { e as nat } else { 0 };
    let down_place = if e >= 0 { 0 } else { (-e) as nat };
    let up = pow2(up_place);
    let down = pow2(down_place);
    let u = up * den;
    let h = p * u;
    lemma_pow2_pos(t);
    lemma_pow2_pos(up_place);
    lemma_pow2_pos(down_place);
    lemma_pow2_unfold(t);
    let m0 = q / p;
    let r = q % p;
    let m = rounded(m0, r, p, inexact);
    vstd::arithmetic::div_mod::lemma_fundamental_div_mod(q as int, p as int);
    assert(q == m0 * p + r) by (nonlinear_arith)
        requires
            q == p * m0 + r,
    ;
    assert(u > 0) by (nonlinear_arith)
        requires
            u == up * den,
            up > 0,
            den > 0,
    ;
    lemma_pow2_adds(t, up_place);
    lemma_pow2_adds(k, down_place);
    assert(t + up_place == k + down_place);
    assert(h == pow2(k) * (den * down)) by (nonlinear_arith)
        requires
            h == p * u,
            u == up * den,
            p * up == pow2(k) * down,
    ;
    lemma2_to64();
    assert(m0 < 0x100_0000) by {
        if q > 0 {
            lemma_pow2_ordered(n, 24 + t);
        }
        lemma_pow2_adds(24, t);
        assert(q < 0x100_0000 * p);
        assert(m0 < 0x100_0000) by (nonlinear_arith)
            requires
                q < 0x100_0000 * p,
                q == m0 * p + r,
                p > 0,
        ;
    }
    if k > 0 {
        lemma_pow2_adds(23, t);
        assert(n - 1 == 23 + t);
        assert(m0 >= 0x80_0000) by (nonlinear_arith)
            requires
                q >= 0x80_0000 * p,
                q == m0 * p + r,
                r < p,
        ;
    }
    assert((m0 * p + r) * u == q * u);
    lemma_rounded_within_half(num * down, m0, r, p, u, inexact);
    lemma_stays_within(num, den, down, k, m, h);
    lemma_reaches(num, den, down, k, m, h);
}

/// The significand, in steps of `2^k` units, that the quotient rounds to.
fn significand(
    q: u64,
    n: u32,
    e: i32,
    k: i32,
    inexact: bool,
    Ghost(num): Ghost<nat>,
    Ghost(den): Ghost<nat>,
) -> (m: u64)
    requires
        den > 0,
        q < 0x4000_0000_0000_0000,
        -1000 <= e <= 1000,
        n <= 64,
        q < pow2(n as nat),
        n > 0 ==> pow2((n - 1) as nat) <= q,
        k == (if q == 0 || e + n < 24 { 0 } else { e + n - 24 }),
        brackets(q as nat, e as int, inexact, num, den),
        inexact ==> q >= 0x100_0000 || e < 0,
    ensures
        m <= 0x100_0000,
        k > 0 ==> m >= 0x80_0000,
        reaches(num, den, (k * 0x80_0000 + m) as nat),
        stays_within(num, den, (k * 0x80_0000 + m) as nat),
{
    if k <= e {
        proof {
            lemma2_to64();
            if inexact {
                lemma_pow2_ordered(n as nat, 24);
            }
            lemma_exact_significand(q as nat, n as nat, e as nat, k as nat, num, den);
        }
        if q == 0 {
            assert(0 * pow2((e - k) as nat) == 0);
            0
        } else {
            q * power_of_two((e - k) as u32)
        }
    } else {
        let t: u32 = (k - e) as u32;
        proof {
            lemma_rounded_significand(q as nat, n as nat, e as int, k as nat, inexact, num, den);
            lemma2_to64_rest();
        }
        if t > 62 {
            proof {
                let p = pow2(t as nat);
                lemma_pow2_ordered(63, t as nat);
                assert(q as nat / p == 0 && q as nat % p == q) by {
                    vstd::arithmetic::div_mod::lemma_basic_div(q as int, p as int);
                    vstd::arithmetic::div_mod::lemma_small_mod(q as nat, p);
                }
            }
            0
        } else {
            let p = power_of_two(t);
            let m0 = q / p;
            let r = q % p;
            if r > p - r || (r == p - r && (inexact || m0 % 2 == 1)) {
                m0 + 1
            } else {
                m0
            }
        }
    }
}

/// The magnitude nearest to `num / den` units, from the leading digits `q` of that quotient. Where
/// digits were cut off, `q` holds more of them than a significand, or they lie below one unit.
pub(crate) fn round(
    q: u64,
    e: i32,
    inexact: bool,
    Ghost(num): Ghost<nat>,
    Ghost(den): Ghost<nat>,
) -> (mag: u32)
    requires
        den > 0,
        q < 0x4000_0000_0000_0000,
        -1000 <= e <= 1000,
        brackets(q as nat, e as int, inexact, num, den),
        inexact ==> q >= 0x100_0000 || e < 0,
    ensures
        is_nearest(num, den, mag as nat),
        mag == nearest(num, den),
{
    let n = bit_length(q);
    let top: i32 = e + n as i32 - 24;
    let k: i32 = if q == 0 || top < 0 {
        0
    } else {
        top
    };
    let m: u64 = significand(q, n, e, k, inexact, Ghost(num), Ghost(den));
    let ghost full = (k * 0x80_0000 + m) as nat;
    let mag = if k >= 254 || k as u64 * 0x80_0000 + m > INFINITE as u64 {
        INFINITE
    } else {
        k as u32 * 0x80_0000 + m as u32
    };
    proof {
        if full > INFINITE {
            let before = (full - 1) as nat;
            let last = (INFINITE - 1) as nat;
            lemma_units_increase(last, before);
            lemma_units_increase(INFINITE as nat, full);
            let low = units(last) + units(INFINITE as nat);
            let high = units(before) + units(full);
            lemma_mul_strict_inequality(low as int, high as int, den as int);
        }
        lemma_nearest_is(num, den, mag);
    }
    mag
}

} // verus!
