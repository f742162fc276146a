//! Arithmetic as it is done on doubles, the binary numbers of 64 bits: each result is rounded
//! to 53 binary digits.
//!
//! A double that is not negative is taken as a whole number of units, of which each is the
//! smallest positive double, 2 to the power of -1074.
use crate::natural::Natural;
use vstd::arithmetic::power2::{
    lemma2_to64, lemma_pow2_adds, lemma_pow2_pos, lemma_pow2_unfold, pow2,
};
use vstd::prelude::*;

verus! {

/// How many times a unit is doubled to make one.
pub const UNIT_BITS: usize = 1074;

/// A quotient, rounded to the nearest whole number, and half to an even one.
pub open spec fn half_even(n: nat, d: nat) -> nat {
    let q = n / d;
    let r = n % d;
    if 2 * r < d || (2 * r == d && q % 2 == 0) {
        q
    } else {
        q + 1
    }
}

/// How many of the last binary digits of a quotient are too many, beyond 53.
pub open spec fn spare_bits(n: nat, d: nat, from: nat) -> nat
    decreases n - from,
{
    if from >= n || n < d * pow2(53 + from) {
        from
    } else {
        spare_bits(n, d, from + 1)
    }
}

/// A quotient, rounded to 53 binary digits.
pub open spec fn nearest(n: nat, d: nat) -> nat {
    let spare = pow2(spare_bits(n, d, 0));
    half_even(n, d * spare) * spare
}

/// The double for a fraction.
pub open spec fn double_of(n: nat, d: nat) -> nat {
    nearest(n * pow2(1074), d)
}

/// A result that is too large for a double is no number.
pub open spec fn is_finite(x: nat) -> bool {
    x < pow2(1024 + 1074)
}

/// The sum of two doubles.
pub open spec fn sum(x: nat, y: nat) -> nat {
    nearest(x + y, 1)
}

/// A double times a whole number that is a double.
pub open spec fn product(x: nat, factor: nat) -> nat {
    nearest(x * factor, 1)
}

/// A double by a whole number that is a double.
pub open spec fn quotient(x: nat, divisor: nat) -> nat {
    nearest(x, divisor)
}

/// A double, rounded to the nearest whole number, and half up.
pub open spec fn rounded(x: nat) -> nat {
    (2 * x + pow2(1074)) / pow2(1075)
}

pub open spec fn at_most_u64(n: nat) -> u64 {
    if n > u64::MAX {
        u64::MAX
    } else {
        n as u64
    }
}

// ---------------------------------------------------------------- facts

/// A power of two is larger than its exponent.
proof fn lemma_pow2_is_larger(n: nat)
    ensures
        pow2(n) > n,
    decreases n,
{
    lemma2_to64();
    if n > 0 {
        lemma_pow2_unfold(n);
        lemma_pow2_is_larger((n - 1) as nat);
    }
}

/// The digits that are spared are no fewer than needed, and no more.
proof fn lemma_spare_bits(n: nat, d: nat, from: nat)
    requires
        d > 0,
        from > 0 ==> d * pow2((52 + from) as nat) <= n,
    ensures
        ({
            let s = spare_bits(n, d, from);
            &&& n < d * pow2(53 + s)
            &&& s > 0 ==> d * pow2((52 + s) as nat) <= n
            &&& s >= from
        }),
    decreases n - from,
{
    lemma_pow2_is_larger(53 + from);
    let p = pow2(53 + from);
    assert(d * p >= p) by (nonlinear_arith)
        requires
            d >= 1,
    ;
    if !(from >= n || n < d * pow2(53 + from)) {
        lemma_spare_bits(n, d, from + 1);
    }
}

/// A quotient of at least a power of two is rounded to at least that.
pub proof fn lemma_nearest_is_large(n: nat, d: nat, bits: nat)
    requires
        d > 0,
        bits >= 53,
        n >= d * pow2(bits),
    ensures
        nearest(n, d) >= pow2(bits),
{
    let s = spare_bits(n, d, 0);
    lemma_spare_bits(n, d, 0);
    if bits >= 53 + s {
        lemma_pow2_adds((53 + s) as nat, (bits - 53 - s) as nat);
        lemma_pow2_pos((bits - 53 - s) as nat);
        let a = pow2(53 + s);
        let b = pow2((bits - 53 - s) as nat);
        assert(d * (a * b) >= d * a) by (nonlinear_arith)
            requires
                b >= 1,
        ;
        assert(false);
    }
    assert(s > 0);
    let spare = pow2(s);
    let unit = d * spare;
    lemma_pow2_pos(s);
    lemma_pow2_adds(52, s);
    let top = pow2(52);
    assert(unit > 0) by (nonlinear_arith)
        requires
            unit == d * spare,
            d > 0,
            spare > 0,
    ;
    assert(d * (top * spare) == top * unit) by (nonlinear_arith)
        requires
            unit == d * spare,
    ;
    assert(n / unit >= top) by {
        vstd::arithmetic::div_mod::lemma_div_is_ordered(
            (top * unit) as int,
            n as int,
            unit as int,
        );
        vstd::arithmetic::div_mod::lemma_div_multiples_vanish(top as int, unit as int);
        assert(unit * top == top * unit) by (nonlinear_arith);
    }
    let m = half_even(n, unit);
    assert(m * spare >= top * spare) by (nonlinear_arith)
        requires
            m >= top,
    ;
    if 52 + s > bits {
        lemma_pow2_adds(bits, (52 + s - bits) as nat);
        lemma_pow2_pos((52 + s - bits) as nat);
        let a = pow2(bits);
        let b = pow2((52 + s - bits) as nat);
        assert(a * b >= a) by (nonlinear_arith)
            requires
                b >= 1,
        ;
    }
}

/// A quotient of less than a half is rounded to nothing.
pub proof fn lemma_nearest_is_nothing(n: nat, d: nat)
    requires
        2 * n < d,
    ensures
        nearest(n, d) == 0,
{
    lemma2_to64();
    lemma_pow2_pos(53);
    let p = pow2(53);
    assert(d * p >= d) by (nonlinear_arith)
        requires
            p >= 1,
    ;
    assert(spare_bits(n, d, 0) == 0);
    assert(d * 1 == d);
    assert(n / d == 0 && n % d == n) by {
        vstd::arithmetic::div_mod::lemma_fundamental_div_mod_converse(
            n as int,
            d as int,
            0,
            n as int,
        );
    }
    assert(0 * pow2(0) == 0);
}

/// A quotient of more than a half is rounded to something.
pub proof fn lemma_nearest_is_something(n: nat, d: nat)
    requires
        d > 0,
        n >= d,
    ensures
        nearest(n, d) > 0,
{
    let s = spare_bits(n, d, 0);
    lemma_spare_bits(n, d, 0);
    lemma_pow2_pos(s);
    let spare = pow2(s);
    let unit = d * spare;
    if s == 0 {
        lemma2_to64();
        assert(unit == d);
    } else {
        lemma_pow2_adds(52, s);
        lemma_pow2_pos(52);
        let top = pow2(52);
        assert(d * (top * spare) >= d * spare) by (nonlinear_arith)
            requires
                top >= 1,
        ;
    }
    assert(unit > 0) by (nonlinear_arith)
        requires
            unit == d * spare,
            d > 0,
            spare > 0,
    ;
    assert(n / unit >= 1) by {
        vstd::arithmetic::div_mod::lemma_div_is_ordered(unit as int, n as int, unit as int);
        vstd::arithmetic::div_mod::lemma_div_by_self(unit as int);
    }
    let m = half_even(n, unit);
    assert(m * spare > 0) by (nonlinear_arith)
        requires
            m >= 1,
            spare >= 1,
    ;
}

/// A whole number of up to 53 binary digits is a double.
pub proof fn law_small_numbers_are_exact(n: nat)
    requires
        n < pow2(53),
    ensures
        double_of(n, 1) == n * pow2(1074),
{
    let one = pow2(1074);
    let x = n * one;
    lemma_pow2_pos(1074);
    lemma_spare_bits(x, 1, 0);
    let s = spare_bits(x, 1, 0);
    if s > 1074 {
        lemma_pow2_adds(53, 1074);
        lemma_pow2_adds((53 + 1074) as nat, (s - 1 - 1074) as nat);
        lemma_pow2_pos((s - 1 - 1074) as nat);
        let a = pow2(53 + 1074);
        let b = pow2((s - 1 - 1074) as nat);
        assert(a * b >= a) by (nonlinear_arith)
            requires
                b >= 1,
        ;
        assert(n * one < pow2(53) * one) by (nonlinear_arith)
            requires
                n < pow2(53),
                one >= 1,
        ;
        assert(false);
    }
    let spare = pow2(s);
    let rest = pow2((1074 - s) as nat);
    lemma_pow2_pos(s);
    lemma_pow2_adds(s, (1074 - s) as nat);
    let m = n * rest;
    assert(x == m * spare) by (nonlinear_arith)
        requires
            x == n * (spare * rest),
            m == n * rest,
    ;
    assert(x / spare == m && x % spare == 0) by {
        vstd::arithmetic::div_mod::lemma_fundamental_div_mod_converse(
            x as int,
            spare as int,
            m as int,
            0,
        );
    }
    assert(1 * spare == spare);
}

/// A quotient is rounded by no more than half of its last digit.
pub proof fn law_nearest_is_near(n: nat, d: nat)
    requires
        d > 0,
    ensures
        ({
            let unit = d * pow2(spare_bits(n, d, 0));
            &&& 2 * (nearest(n, d) * d) <= 2 * n + unit
            &&& 2 * n <= 2 * (nearest(n, d) * d) + unit
        }),
{
    let spare = pow2(spare_bits(n, d, 0));
    lemma_pow2_pos(spare_bits(n, d, 0));
    let unit = d * spare;
    assert(unit > 0) by (nonlinear_arith)
        requires
            unit == d * spare,
            d > 0,
            spare > 0,
    ;
    let q = n / unit;
    let r = n % unit;
    let m = half_even(n, unit);
    vstd::arithmetic::div_mod::lemma_fundamental_div_mod(n as int, unit as int);
    assert((m * spare) * d == unit * m) by (nonlinear_arith)
        requires
            unit == d * spare,
    ;
    assert(unit * (q + 1) == unit * q + unit) by (nonlinear_arith);
}

/// A quotient of less than 2 to the power of 50 ones is rounded by no more than an eighth of
/// one.
pub proof fn lemma_nearest_is_close(n: nat, d: nat, one: nat)
    requires
        0 < d < pow2(60),
        n < pow2(50) * one,
        one >= pow2(64),
    ensures
        8 * (nearest(n, d) * d) <= 8 * n + one,
        8 * n <= 8 * (nearest(n, d) * d) + one,
{
    let s = spare_bits(n, d, 0);
    let u = pow2(s);
    lemma_spare_bits(n, d, 0);
    law_nearest_is_near(n, d);
    lemma2_to64();
    if s == 0 {
        assert(d * u == d) by (nonlinear_arith)
            requires
                u == 1,
        ;
        lemma_pow2_adds(60, 4);
        assert(4 * (d * u) <= one);
    } else {
        lemma_pow2_adds(52, s);
        lemma_pow2_adds(50, 2);
        let top = pow2(50);
        lemma_pow2_pos(50);
        assert(d * (pow2(52) * u) == 4 * (d * u) * top) by (nonlinear_arith)
            requires
                pow2(52) == top * 4,
        ;
        assert(4 * (d * u) < one) by (nonlinear_arith)
            requires
                4 * (d * u) * top < top * one,
                top > 0,
        ;
    }
}

/// A whole number of thousandths, as a double of ones, comes back when it is taken a thousand
/// times and rounded.
pub proof fn law_thousandths_come_back(n: nat)
    requires
        n < pow2(50),
    ensures
        rounded(product(double_of(n, 1000), 1000)) == n,
        is_finite(double_of(n, 1000)),
{
    let one = pow2(1074);
    let bound = pow2(50);
    lemma2_to64();
    lemma_pow2_adds(32, 28);
    lemma_pow2_adds(64, 1010);
    lemma_pow2_pos(1010);
    assert(one >= pow2(64)) by (nonlinear_arith)
        requires
            one == pow2(64) * pow2(1010),
            pow2(1010) >= 1,
    ;
    assert(n * one + one <= bound * one) by (nonlinear_arith)
        requires
            n + 1 <= bound,
    ;
    let x = double_of(n, 1000);
    lemma_nearest_is_close(n * one, 1000, one);
    let y = product(x, 1000);
    lemma_nearest_is_close(x * 1000, 1, one);
    assert(y * 1 == y);
    assert(8 * y < 8 * (n * one) + 4 * one);
    assert(8 * (n * one) < 8 * y + 4 * one);
    lemma_pow2_unfold(1075);
    assert((2 * y + one) / (2 * one) == n) by {
        let rest = 2 * y + one - n * (2 * one);
        assert(n * (2 * one) == 2 * (n * one)) by (nonlinear_arith);
        vstd::arithmetic::div_mod::lemma_fundamental_div_mod_converse(
            (2 * y + one) as int,
            (2 * one) as int,
            n as int,
            rest,
        );
    }
    lemma_pow2_adds(50, 1074);
    lemma_pow2_adds((50 + 1074) as nat, (1024 - 50) as nat);
    lemma_pow2_pos((1024 - 50) as nat);
    let a = pow2(50 + 1074);
    let b = pow2((1024 - 50) as nat);
    assert(a * b >= a) by (nonlinear_arith)
        requires
            b >= 1,
    ;
}

/// A whole number of ones comes back a thousand times as large.
pub proof fn law_whole_numbers_come_back(n: nat)
    requires
        1000 * n < pow2(50),
    ensures
        rounded(product(double_of(n, 1), 1000)) == 1000 * n,
        is_finite(double_of(n, 1)),
{
    let one = pow2(1074);
    lemma2_to64();
    lemma_pow2_pos(1074);
    lemma_pow2_adds(50, 3);
    law_small_numbers_are_exact(n);
    law_small_numbers_are_exact(1000 * n);
    assert((n * one) * 1000 == (1000 * n) * one) by (nonlinear_arith);
    let y = product(double_of(n, 1), 1000);
    assert(y == (1000 * n) * one);
    lemma_pow2_unfold(1075);
    assert((2 * y + one) / (2 * one) == 1000 * n) by {
        assert((1000 * n) * (2 * one) == 2 * y) by (nonlinear_arith)
            requires
                y == (1000 * n) * one,
        ;
        vstd::arithmetic::div_mod::lemma_fundamental_div_mod_converse(
            (2 * y + one) as int,
            (2 * one) as int,
            (1000 * n) as int,
            one as int,
        );
    }
    assert(n * one < pow2(50) * one) by (nonlinear_arith)
        requires
            n < pow2(50),
            one >= 1,
    ;
    lemma_pow2_adds(50, 1074);
    lemma_pow2_adds((50 + 1074) as nat, (1024 - 50) as nat);
    lemma_pow2_pos((1024 - 50) as nat);
    let a = pow2(50 + 1074);
    let b = pow2((1024 - 50) as nat);
    assert(a * b >= a) by (nonlinear_arith)
        requires
            b >= 1,
    ;
}

// ---------------------------------------------------------------- computing

/// A quotient, rounded to 53 binary digits.
pub fn nearest_of(n: &Natural, d: &Natural) -> (r: Natural)
    requires
        d@ > 0,
    ensures
        r@ == nearest(n@, d@),
{
    let mut bound = d.duplicate();
    bound.double(53);
    let mut spare = Natural::from_u64(1);
    let ghost mut s: nat = 0;
    proof {
        lemma2_to64();
        lemma_pow2_pos(53);
        let p = pow2(53);
        assert(d@ * p >= 1) by (nonlinear_arith)
            requires
                d@ >= 1,
                p >= 1,
        ;
    }
    while !n.is_less(&bound)
        invariant
            d@ > 0,
            bound@ == d@ * pow2(53 + s),
            bound@ >= 1,
            spare@ == pow2(s),
            spare_bits(n@, d@, 0) == spare_bits(n@, d@, s),
        decreases
            if n@ >= bound@ {
                n@ - bound@ + 1
            } else {
                0
            },
    {
        proof {
            lemma_pow2_is_larger(53 + s);
            lemma_pow2_unfold(53 + s + 1);
            lemma_pow2_unfold(s + 1);
            let p = pow2(53 + s);
            let x = d@;
            assert(x * p >= p) by (nonlinear_arith)
                requires
                    x >= 1,
            ;
            assert((x * p) * 2 == x * (2 * p)) by (nonlinear_arith);
            assert(s < n@);
            s = s + 1;
        }
        bound.times_plus(2, 0);
        spare.times_plus(2, 0);
    }
    let (digits, rest) = n.binary_digits(&bound, 53);
    let ghost left = rest@;
    let mut twice = rest;
    twice.times_plus(2, 0);
    let down = twice.is_less(&bound);
    let up = bound.is_less(&twice);
    let whole: u64 = if down || (!up && digits % 2 == 0) {
        digits
    } else {
        proof {
            lemma_pow2_unfold(64);
            lemma2_to64_both();
        }
        digits + 1
    };
    proof {
        lemma_pow2_pos(s);
        lemma_pow2_adds(53, s);
        assert(spare_bits(n@, d@, s) == s);
        let a = pow2(53);
        let b = pow2(s);
        let x = d@;
        assert(x * (a * b) == (x * b) * a) by (nonlinear_arith);
        assert(x * b > 0) by (nonlinear_arith)
            requires
                x > 0,
                b > 0,
        ;
        lemma_digits_of_quotient(n@, d@ * pow2(s), digits as nat, left, bound@);
        assert(whole == half_even(n@, d@ * pow2(s)));
        assert(pow2(s) * whole == whole * pow2(s)) by (nonlinear_arith);
    }
    spare.times_plus(whole, 0);
    spare
}

proof fn lemma2_to64_both()
    ensures
        pow2(53) == 0x20_0000_0000_0000,
{
    vstd::arithmetic::power2::lemma2_to64_rest();
}

/// The first 53 binary digits of a fraction are a quotient, and what is left over is its
/// remainder.
proof fn lemma_digits_of_quotient(n: nat, unit: nat, digits: nat, left: nat, bound: nat)
    requires
        unit > 0,
        bound == unit * pow2(53),
        n * pow2(53) == digits * bound + left,
        left < bound,
    ensures
        n / unit == digits,
        left == (n % unit) * pow2(53),
        2 * left < bound <==> 2 * (n % unit) < unit,
        2 * left == bound <==> 2 * (n % unit) == unit,
{
    let p = pow2(53);
    lemma_pow2_pos(53);
    let r = n - digits * unit;
    assert(r * p == left) by (nonlinear_arith)
        requires
            r == n - digits * unit,
            n * p == digits * (unit * p) + left,
    ;
    assert(0 <= r < unit) by (nonlinear_arith)
        requires
            r * p == left,
            0 <= left < unit * p,
            p > 0,
    ;
    vstd::arithmetic::div_mod::lemma_fundamental_div_mod_converse(
        n as int,
        unit as int,
        digits as int,
        r,
    );
    assert(2 * left < bound <==> 2 * r < unit) by (nonlinear_arith)
        requires
            left == r * p,
            bound == unit * p,
            p > 0,
    ;
    assert(2 * left == bound <==> 2 * r == unit) by (nonlinear_arith)
        requires
            left == r * p,
            bound == unit * p,
            p > 0,
    ;
}

/// The double for a fraction.
pub fn double_from(n: &Natural, d: &Natural) -> (r: Natural)
    requires
        d@ > 0,
    ensures
        r@ == double_of(n@, d@),
{
    let mut scaled = n.duplicate();
    scaled.double(UNIT_BITS);
    nearest_of(&scaled, d)
}

/// Whether a result is a number.
pub fn is_number(x: &Natural) -> (r: bool)
    ensures
        r == is_finite(x@),
{
    let mut limit = Natural::from_u64(1);
    limit.double(1024 + 1074);
    assert(1 * pow2(1024 + 1074) == pow2(1024 + 1074));
    x.is_less(&limit)
}

/// The sum of two doubles.
pub fn total(x: &Natural, y: &Natural) -> (r: Natural)
    ensures
        r@ == sum(x@, y@),
{
    let mut exact = x.duplicate();
    exact.plus(y);
    nearest_of(&exact, &Natural::from_u64(1))
}

/// A double times a whole number that is a double.
pub fn multiply(x: &Natural, factor: u64) -> (r: Natural)
    ensures
        r@ == product(x@, factor as nat),
{
    let mut exact = x.duplicate();
    exact.times_plus(factor, 0);
    nearest_of(&exact, &Natural::from_u64(1))
}

/// A double by a whole number that is a double.
pub fn divide(x: &Natural, divisor: &Natural) -> (r: Natural)
    requires
        divisor@ > 0,
    ensures
        r@ == quotient(x@, divisor@),
{
    nearest_of(x, divisor)
}

/// A double, rounded to the nearest whole number, as far as it fits.
pub fn round_to_u64(x: &Natural) -> (r: u64)
    ensures
        r == at_most_u64(rounded(x@)),
{
    let mut one = Natural::from_u64(1);
    one.double(UNIT_BITS);
    let mut shifted = x.duplicate();
    shifted.times_plus(2, 0);
    shifted.plus(&one);
    let mut bound = one.duplicate();
    bound.double(65);
    let ghost unit = pow2(1075);
    proof {
        assert(1 * pow2(1074) == pow2(1074));
        lemma_pow2_unfold(1075);
        lemma_pow2_adds(1074, 65);
        lemma_pow2_adds(1075, 64);
        lemma_pow2_pos(1075);
        lemma2_to64();
    }
    if !shifted.is_less(&bound) {
        proof {
            assert(shifted@ / unit >= pow2(64)) by {
                vstd::arithmetic::div_mod::lemma_div_is_ordered(
                    (pow2(64) * unit) as int,
                    shifted@ as int,
                    unit as int,
                );
                vstd::arithmetic::div_mod::lemma_div_multiples_vanish(
                    pow2(64) as int,
                    unit as int,
                );
                assert(unit * pow2(64) == pow2(64) * unit) by (nonlinear_arith);
            }
        }
        return u64::MAX;
    }
    let (digits, rest) = shifted.binary_digits(&bound, 64);
    proof {
        let p = pow2(64);
        let n = shifted@;
        let r = n - digits * unit;
        let left = rest@;
        assert(bound@ == unit * p);
        assert(r * p == left) by (nonlinear_arith)
            requires
                r == n - digits * unit,
                n * p == digits * (unit * p) + left,
        ;
        assert(0 <= r < unit) by (nonlinear_arith)
            requires
                r * p == left,
                0 <= left < unit * p,
                p > 0,
        ;
        vstd::arithmetic::div_mod::lemma_fundamental_div_mod_converse(
            n as int,
            unit as int,
            digits as int,
            r,
        );
    }
    digits
}

} // verus!
