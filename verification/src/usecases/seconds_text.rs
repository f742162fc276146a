//! Numbers of seconds as texts, with a point and an exponent or without. They are read as
//! doubles, and computed with as such.
use crate::double::{
    at_most_u64, double_from, double_of, is_finite, is_number, lemma_nearest_is_large,
    lemma_nearest_is_nothing, multiply, product, round_to_u64, rounded,
};
use crate::natural::Natural;
use crate::text::{
    all_digits, chars_all_digits, digits_value, index_of, index_of_char, is_digit,
};
use vstd::arithmetic::power2::{
    lemma2_to64, lemma_pow2_adds, lemma_pow2_pos, lemma_pow2_unfold, pow2,
};
use vstd::prelude::*;

verus! {

// ---------------------------------------------------------------- meaning

pub open spec fn pow10(n: nat) -> nat
    decreases n,
{
    if n == 0 {
        1
    } else {
        10 * pow10((n - 1) as nat)
    }
}

/// The part of a number before its point.
pub open spec fn whole_part(s: Seq<char>) -> Seq<char> {
    match index_of(s, '.', 0) {
        Some(at) => s.take(at),
        None => s,
    }
}

/// The part of a number after its point.
pub open spec fn fraction_part(s: Seq<char>) -> Seq<char> {
    match index_of(s, '.', 0) {
        Some(at) => s.skip(at + 1),
        None => Seq::empty(),
    }
}

/// Digits, with a point among them or not.
pub open spec fn is_decimal(s: Seq<char>) -> bool {
    all_digits(whole_part(s)) && all_digits(fraction_part(s)) && whole_part(s).len()
        + fraction_part(s).len() > 0
}

/// Where the exponent begins, or the length of the text.
pub open spec fn exponent_index(s: Seq<char>, from: int) -> int
    decreases s.len() - from,
{
    if from < 0 || from >= s.len() {
        s.len() as int
    } else if s[from] == 'e' || s[from] == 'E' {
        from
    } else {
        exponent_index(s, from + 1)
    }
}

/// Digits after an optional sign.
pub open spec fn signed_digits(s: Seq<char>) -> Option<int> {
    let digits = if s.len() > 0 && (s[0] == '-' || s[0] == '+') {
        s.drop_first()
    } else {
        s
    };
    if digits.len() == 0 || !all_digits(digits) {
        None
    } else if s[0] == '-' {
        Some(-(digits_value(digits) as int))
    } else {
        Some(digits_value(digits) as int)
    }
}

/// The exponent of a number without a sign: none is 0.
pub open spec fn exponent_of(s: Seq<char>) -> Option<int> {
    let at = exponent_index(s, 0);
    if at == s.len() {
        Some(0int)
    } else {
        signed_digits(s.skip(at + 1))
    }
}

/// The part of a number without a sign before its exponent.
pub open spec fn mantissa_of(s: Seq<char>) -> Seq<char> {
    s.take(exponent_index(s, 0))
}

/// A number with its point moved, as a fraction.
pub open spec fn moved(value: nat, places: int) -> (nat, nat) {
    if places >= 0 {
        (value * pow10(places as nat), 1)
    } else {
        (value, pow10((-places) as nat))
    }
}

/// The double for a number with its point moved.
pub open spec fn moved_double(value: nat, places: int) -> nat {
    double_of(moved(value, places).0, moved(value, places).1)
}

/// The milliseconds of a double of seconds: the double of a thousand times as many, rounded.
pub open spec fn milliseconds_of(seconds: nat) -> u64 {
    at_most_u64(rounded(product(seconds, 1000)))
}

/// The milliseconds of a double of seconds, where it is a number and not negative.
pub open spec fn accepted_ms(seconds: nat, negative: bool) -> Option<u64> {
    if !is_finite(seconds) || (negative && seconds > 0) {
        None
    } else {
        Some(milliseconds_of(seconds))
    }
}

/// The milliseconds of a number of seconds, which is neither negative nor too large for a
/// double: digits with a point or without, and an exponent or none.
pub open spec fn seconds_ms(s: Seq<char>) -> Option<u64> {
    let negative = s.len() > 0 && s[0] == '-';
    let plain = if negative || (s.len() > 0 && s[0] == '+') {
        s.drop_first()
    } else {
        s
    };
    let mantissa = mantissa_of(plain);
    let value = digits_value(whole_part(mantissa) + fraction_part(mantissa));
    match exponent_of(plain) {
        Some(exponent) => if is_decimal(mantissa) {
            accepted_ms(moved_double(value, exponent - fraction_part(mantissa).len()), negative)
        } else {
            None
        },
        None => None,
    }
}

// ---------------------------------------------------------------- powers of ten

proof fn lemma_pow10_positive(n: nat)
    ensures
        pow10(n) >= 1,
    decreases n,
{
    if n > 0 {
        lemma_pow10_positive((n - 1) as nat);
    }
}

proof fn lemma_pow10_adds(a: nat, b: nat)
    ensures
        pow10(a + b) == pow10(a) * pow10(b),
    decreases b,
{
    if b == 0 {
        assert(pow10(a) * 1 == pow10(a));
    } else {
        lemma_pow10_adds(a, (b - 1) as nat);
        let x = pow10(a);
        let y = pow10((b - 1) as nat);
        assert(10 * (x * y) == x * (10 * y)) by (nonlinear_arith);
    }
}

proof fn lemma_pow10_grows(a: nat, b: nat)
    requires
        a <= b,
    ensures
        pow10(a) <= pow10(b),
    decreases b,
{
    if a < b {
        lemma_pow10_grows(a, (b - 1) as nat);
    }
}

// ---------------------------------------------------------------- digits

pub open spec fn zeros(n: nat) -> Seq<char> {
    Seq::new(n, |i: int| '0')
}

proof fn lemma_value_of_two(a: Seq<char>, b: Seq<char>)
    ensures
        digits_value(a + b) == digits_value(a) * pow10(b.len()) + digits_value(b),
    decreases b.len(),
{
    if b.len() == 0 {
        assert(a + b =~= a);
        assert(digits_value(a) * 1 == digits_value(a));
    } else {
        lemma_value_of_two(a, b.drop_last());
        assert((a + b).drop_last() =~= a + b.drop_last());
        assert((a + b).last() == b.last());
        let v = digits_value(a);
        let p = pow10((b.len() - 1) as nat);
        let w = digits_value(b.drop_last());
        assert((v * p + w) * 10 == v * (10 * p) + w * 10) by (nonlinear_arith);
    }
}

proof fn lemma_value_of_zeros(n: nat)
    ensures
        digits_value(zeros(n)) == 0,
        zeros(n).len() == n,
    decreases n,
{
    if n > 0 {
        lemma_value_of_zeros((n - 1) as nat);
        assert(zeros(n).drop_last() =~= zeros((n - 1) as nat));
    }
}

proof fn lemma_value_is_bounded(s: Seq<char>)
    requires
        all_digits(s),
    ensures
        digits_value(s) < pow10(s.len()),
    decreases s.len(),
{
    if s.len() > 0 {
        assert(is_digit(s.last()));
        assert(all_digits(s.drop_last())) by {
            assert forall|i: int| 0 <= i < s.len() - 1 implies is_digit(s.drop_last()[i]) by {
                assert(s.drop_last()[i] == s[i]);
            }
        }
        lemma_value_is_bounded(s.drop_last());
    }
}

/// A number that does not begin with a zero is at least a power of ten.
proof fn lemma_value_is_large(s: Seq<char>)
    requires
        all_digits(s),
        s.len() > 0,
        s[0] != '0',
    ensures
        digits_value(s) >= pow10((s.len() - 1) as nat),
{
    let head = s.take(1);
    let tail = s.skip(1);
    assert(s =~= head + tail);
    lemma_value_of_two(head, tail);
    assert(is_digit(s[0]));
    assert(head.drop_last().len() == 0);
    assert(digits_value(head.drop_last()) == 0);
    assert(head.last() == s[0]);
    assert(digits_value(head) == (s[0] as int - 48) as nat);
    let d = digits_value(head);
    let p = pow10(tail.len());
    assert(d * p >= p) by (nonlinear_arith)
        requires
            d >= 1,
    ;
}

proof fn lemma_parts_are_digits(s: Seq<char>, at: int)
    requires
        all_digits(s),
        0 <= at <= s.len(),
    ensures
        all_digits(s.take(at)),
        all_digits(s.skip(at)),
        s == s.take(at) + s.skip(at),
{
    assert forall|i: int| 0 <= i < at implies is_digit(s.take(at)[i]) by {
        assert(s.take(at)[i] == s[i]);
    }
    assert forall|i: int| 0 <= i < s.len() - at implies is_digit(s.skip(at)[i]) by {
        assert(s.skip(at)[i] == s[at + i]);
    }
    assert(s =~= s.take(at) + s.skip(at));
}

/// Zeros at the beginning do not count.
proof fn lemma_leading_zeros(s: Seq<char>, at: int)
    requires
        0 <= at <= s.len(),
        forall|i: int| 0 <= i < at ==> s[i] == '0',
    ensures
        digits_value(s) == digits_value(s.skip(at)),
{
    lemma_value_of_zeros(at as nat);
    assert(s =~= zeros(at as nat) + s.skip(at));
    lemma_value_of_two(zeros(at as nat), s.skip(at));
    assert(0 * pow10(s.skip(at).len()) == 0);
}

proof fn lemma_pow10_is_larger(n: nat)
    ensures
        pow10(n) >= pow2(3 * n),
    decreases n,
{
    lemma2_to64();
    if n > 0 {
        lemma_pow10_is_larger((n - 1) as nat);
        lemma_pow2_adds((3 * (n - 1)) as nat, 3);
    }
}

// ---------------------------------------------------------------- far away

/// A number with very many digits before its point is too large for a double.
proof fn lemma_too_large(s: Seq<char>, places: int)
    requires
        all_digits(s),
        s.len() > 0,
        s[0] != '0',
        s.len() + places > 400,
    ensures
        !is_finite(moved_double(digits_value(s), places)),
{
    let v = digits_value(s);
    let (n, d) = moved(v, places);
    let top = pow10(400);
    lemma_value_is_large(s);
    lemma_pow10_is_larger(400);
    lemma_pow2_adds(1024, 176);
    lemma_pow2_pos(176);
    let a = pow2(1024);
    let b = pow2(176);
    assert(a * b >= a) by (nonlinear_arith)
        requires
            b >= 1,
    ;
    assert(top >= a);
    if places >= 0 {
        let p = pow10(places as nat);
        lemma_pow10_adds((s.len() - 1) as nat, places as nat);
        lemma_pow10_grows(400, (s.len() - 1 + places) as nat);
        let low = pow10((s.len() - 1) as nat);
        assert(v * p >= low * p) by (nonlinear_arith)
            requires
                v >= low,
        ;
        assert(n >= d * a);
    } else {
        let m = (-places) as nat;
        lemma_pow10_adds(400, m);
        lemma_pow10_grows(400 + m, (s.len() - 1) as nat);
        lemma_pow10_positive(m);
        assert(top * d >= a * d) by (nonlinear_arith)
            requires
                top >= a,
        ;
        assert(d * a == a * d) by (nonlinear_arith);
    }
    let u = pow2(1074);
    lemma_pow2_adds(1024, 1074);
    assert(n * u >= d * (a * u)) by (nonlinear_arith)
        requires
            n >= d * a,
    ;
    lemma_nearest_is_large(n * u, d, 1024 + 1074);
}

/// A number with very many zeros after its point is nothing.
proof fn lemma_too_small(s: Seq<char>, places: int)
    requires
        all_digits(s),
        s.len() + places < -400,
    ensures
        moved_double(digits_value(s), places) == 0,
{
    let v = digits_value(s);
    let m = (-places) as nat;
    let d = pow10(m);
    let top = pow10(401);
    lemma_value_is_bounded(s);
    lemma_pow10_adds(s.len(), 401);
    lemma_pow10_grows((s.len() + 401) as nat, m);
    lemma_pow10_is_larger(401);
    lemma_pow2_adds(1075, 128);
    lemma_pow2_pos(128);
    lemma_pow2_pos(1075);
    lemma_pow2_unfold(1075);
    let a = pow2(1075);
    let b = pow2(128);
    assert(a * b >= a) by (nonlinear_arith)
        requires
            b >= 1,
    ;
    assert(top >= a);
    let bound = pow10(s.len());
    assert(v * a < bound * top) by (nonlinear_arith)
        requires
            v + 1 <= bound,
            1 <= a <= top,
    ;
    let u = pow2(1074);
    assert(2 * (v * u) == v * (2 * u)) by (nonlinear_arith);
    lemma_nearest_is_nothing(v * u, d);
}

/// Nothing stays nothing, wherever its point is.
proof fn lemma_nothing(places: int)
    ensures
        moved_double(0, places) == 0,
        is_finite(0),
        milliseconds_of(0) == 0,
{
    let (n, d) = moved(0, places);
    lemma_pow2_pos(1024 + 1074);
    lemma_pow2_pos(1074);
    lemma_pow2_unfold(1075);
    if places >= 0 {
        assert(0 * pow10(places as nat) == 0);
    } else {
        lemma_pow10_positive((-places) as nat);
    }
    assert(n == 0);
    assert(0 * pow2(1074) == 0);
    lemma_nearest_is_nothing(0, d);
    lemma_nearest_is_nothing(0, 1);
    assert(pow2(1074) / pow2(1075) == 0) by {
        vstd::arithmetic::div_mod::lemma_fundamental_div_mod_converse(
            pow2(1074) as int,
            pow2(1075) as int,
            0,
            pow2(1074) as int,
        );
    }
}

proof fn lemma_digits_join(a: Seq<char>, b: Seq<char>)
    requires
        all_digits(a),
        all_digits(b),
    ensures
        all_digits(a + b),
        (a + b).len() == a.len() + b.len(),
{
    assert forall|i: int| 0 <= i < (a + b).len() implies is_digit((a + b)[i]) by {
        if i < a.len() {
            assert((a + b)[i] == a[i]);
        } else {
            assert((a + b)[i] == b[i - a.len()]);
        }
    }
}

// ---------------------------------------------------------------- reading

/// An exponent that is larger in size than this one moves the point of any text past all
/// of its digits.
pub const EXPONENT_CAP: i128 = 0x1_0000_0000_0000_0000_0000;

fn find_exponent(s: &[char]) -> (r: usize)
    ensures
        r == exponent_index(s@, 0),
        r <= s.len(),
{
    let mut i: usize = 0;
    while i < s.len()
        invariant
            i <= s.len(),
            exponent_index(s@, 0) == exponent_index(s@, i as int),
        decreases s.len() - i,
    {
        if s[i] == 'e' || s[i] == 'E' {
            return i;
        }
        i = i + 1;
    }
    s.len()
}

pub open spec fn capped(n: int) -> int {
    if n > EXPONENT_CAP {
        EXPONENT_CAP as int
    } else if n < -EXPONENT_CAP {
        -EXPONENT_CAP
    } else {
        n
    }
}

/// The number that digits denote, up to the largest exponent.
fn capped_number(digits: &[char]) -> (r: i128)
    requires
        all_digits(digits@),
    ensures
        r == capped(digits_value(digits@) as int),
{
    let mut value: i128 = 0;
    let mut i: usize = 0;
    while i < digits.len()
        invariant
            i <= digits.len(),
            all_digits(digits@),
            0 <= value <= EXPONENT_CAP,
            value == capped(digits_value(digits@.take(i as int)) as int),
        decreases digits.len() - i,
    {
        proof {
            assert(is_digit(digits@[i as int]));
            let next = digits@.take(i + 1);
            assert(next.drop_last() =~= digits@.take(i as int));
            assert(next.last() == digits@[i as int]);
        }
        let grown: i128 = value * 10 + (digits[i] as u32 as i128 - 48);
        value = if grown > EXPONENT_CAP {
            EXPONENT_CAP
        } else {
            grown
        };
        i = i + 1;
    }
    assert(digits@.take(i as int) =~= digits@);
    value
}

fn read_signed_digits(s: &[char]) -> (r: Option<i128>)
    ensures
        match r {
            Some(n) => signed_digits(s@) matches Some(m) && n == capped(m),
            None => signed_digits(s@) is None,
        },
{
    let signed = s.len() > 0 && (s[0] == '-' || s[0] == '+');
    let from: usize = if signed {
        1
    } else {
        0
    };
    let digits = vstd::slice::slice_subrange(s, from, s.len());
    proof {
        assert(digits@ =~= if signed {
            s@.drop_first()
        } else {
            s@
        });
    }
    if digits.len() == 0 || !chars_all_digits(digits) {
        return None;
    }
    let n: i128 = capped_number(digits);
    if s[0] == '-' {
        Some(-n)
    } else {
        Some(n)
    }
}

fn read_exponent(s: &[char], at: usize) -> (r: Option<i128>)
    requires
        at == exponent_index(s@, 0),
        at <= s.len(),
    ensures
        match r {
            Some(n) => exponent_of(s@) matches Some(m) && n == capped(m),
            None => exponent_of(s@) is None,
        },
{
    if at == s.len() {
        return Some(0);
    }
    let rest = vstd::slice::slice_subrange(s, at + 1, s.len());
    proof {
        assert(rest@ =~= s@.skip(at + 1));
    }
    read_signed_digits(rest)
}

/// The number that digits denote.
fn number_of(digits: &[char]) -> (r: Natural)
    requires
        all_digits(digits@),
    ensures
        r@ == digits_value(digits@),
{
    let mut n = Natural::zero();
    let mut i: usize = 0;
    while i < digits.len()
        invariant
            i <= digits.len(),
            all_digits(digits@),
            n@ == digits_value(digits@.take(i as int)),
        decreases digits.len() - i,
    {
        proof {
            assert(is_digit(digits@[i as int]));
            let next = digits@.take(i + 1);
            assert(next.drop_last() =~= digits@.take(i as int));
            assert(next.last() == digits@[i as int]);
        }
        n.times_plus(10, (digits[i] as u32 - 48) as u64);
        i = i + 1;
    }
    assert(digits@.take(i as int) =~= digits@);
    n
}

/// A number times a power of ten.
fn times_pow10(n: Natural, places: u128) -> (r: Natural)
    ensures
        r@ == n@ * pow10(places as nat),
{
    let mut product = n;
    let mut i: u128 = 0;
    proof {
        assert(n@ * 1 == n@);
    }
    while i < places
        invariant
            i <= places,
            product@ == n@ * pow10(i as nat),
        decreases places - i,
    {
        proof {
            let x = n@;
            let p = pow10(i as nat);
            assert((x * p) * 10 == x * (10 * p)) by (nonlinear_arith);
        }
        product.times_plus(10, 0);
        i = i + 1;
    }
    product
}

/// The double for digits with their point moved.
fn double_with(digits: &[char], places: i128) -> (r: Natural)
    requires
        all_digits(digits@),
        places > i128::MIN,
    ensures
        r@ == moved_double(digits_value(digits@), places as int),
{
    let n = number_of(digits);
    if places >= 0 {
        double_from(&times_pow10(n, places as u128), &Natural::from_u64(1))
    } else {
        let d = times_pow10(Natural::from_u64(1), (-places) as u128);
        proof {
            lemma_pow10_positive((-places) as nat);
            assert(1 * pow10((-places) as nat) == pow10((-places) as nat));
        }
        double_from(&n, &d)
    }
}

fn count_leading_zeros(digits: &[char]) -> (r: usize)
    ensures
        r <= digits.len(),
        forall|i: int| 0 <= i < r ==> digits@[i] == '0',
        r < digits.len() ==> digits@[r as int] != '0',
{
    let mut i: usize = 0;
    while i < digits.len() && digits[i] == '0'
        invariant
            i <= digits.len(),
            forall|k: int| 0 <= k < i ==> digits@[k] == '0',
        decreases digits.len() - i,
    {
        i = i + 1;
    }
    i
}

/// The milliseconds of digits of which so many stand after the point, with an exponent that
/// may have been cut short.
fn read_milliseconds(
    digits: &[char],
    exponent: i128,
    after_point: usize,
    negative: bool,
    Ghost(meant): Ghost<int>,
) -> (r: Option<u64>)
    requires
        all_digits(digits@),
        exponent == capped(meant),
    ensures
        r == accepted_ms(moved_double(digits_value(digits@), meant - after_point), negative),
{
    let skipped: usize = count_leading_zeros(digits);
    let significant = vstd::slice::slice_subrange(digits, skipped, digits.len());
    proof {
        assert(significant@ =~= digits@.skip(skipped as int));
        lemma_leading_zeros(digits@, skipped as int);
        lemma_parts_are_digits(digits@, skipped as int);
    }
    if significant.len() == 0 {
        proof {
            lemma_nothing(meant - after_point);
        }
        return Some(0);
    }
    let places: i128 = exponent - after_point as i128;
    let before_point: i128 = significant.len() as i128 + places;
    if before_point > 400 {
        proof {
            lemma_too_large(significant@, meant - after_point);
        }
        return None;
    }
    if before_point < -400 {
        proof {
            lemma_too_small(significant@, meant - after_point);
            lemma_nothing(0);
        }
        return Some(0);
    }
    let seconds = double_with(significant, places);
    if !is_number(&seconds) || (negative && !seconds.is_less(&Natural::from_u64(1))) {
        return None;
    }
    Some(round_to_u64(&multiply(&seconds, 1000)))
}

/// The milliseconds of a number of seconds.
pub fn parse_seconds_ms(s: &[char]) -> (r: Option<u64>)
    ensures
        r == seconds_ms(s@),
{
    let negative = s.len() > 0 && s[0] == '-';
    let from: usize = if negative || (s.len() > 0 && s[0] == '+') {
        1
    } else {
        0
    };
    let plain = vstd::slice::slice_subrange(s, from, s.len());
    proof {
        assert(plain@ =~= if from == 1 {
            s@.drop_first()
        } else {
            s@
        });
    }
    let at: usize = find_exponent(plain);
    let exponent: i128 = match read_exponent(plain, at) {
        Some(n) => n,
        None => {
            return None;
        },
    };
    let mantissa = vstd::slice::slice_subrange(plain, 0, at);
    proof {
        assert(mantissa@ =~= mantissa_of(plain@));
    }
    let (whole, fraction) = match index_of_char(mantissa, '.', 0) {
        Some(point) => (
            vstd::slice::slice_subrange(mantissa, 0, point),
            vstd::slice::slice_subrange(mantissa, point + 1, mantissa.len()),
        ),
        None => (
            vstd::slice::slice_subrange(mantissa, 0, mantissa.len()),
            vstd::slice::slice_subrange(mantissa, mantissa.len(), mantissa.len()),
        ),
    };
    proof {
        assert(whole@ =~= whole_part(mantissa@));
        assert(fraction@ =~= fraction_part(mantissa@));
    }
    if !chars_all_digits(whole) || !chars_all_digits(fraction) || (whole.len() == 0
        && fraction.len() == 0) {
        return None;
    }
    let mut digits: Vec<char> = Vec::new();
    digits.extend_from_slice(whole);
    digits.extend_from_slice(fraction);
    proof {
        assert(digits@ =~= whole@ + fraction@);
        lemma_digits_join(whole@, fraction@);
    }
    read_milliseconds(
        digits.as_slice(),
        exponent,
        fraction.len(),
        negative,
        Ghost(exponent_of(plain@)->0),
    )
}

} // verus!
