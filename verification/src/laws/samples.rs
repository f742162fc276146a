//! What is made of several samples: their order, their middle, and a count between them.
use crate::double::{
    law_small_numbers_are_exact, lemma_nearest_is_close, nearest, quotient, rounded, sum,
};
use crate::usecases::ptz_calibrate_auto::{
    ascending, deadband_from, deadband_limit, mean_double, median_twice, middle_double, no_larger,
    robust_count, sum_of, trim_count, without_ends,
};
use vstd::arithmetic::power2::{
    lemma2_to64, lemma_pow2_adds, lemma_pow2_pos, lemma_pow2_strictly_increases,
    lemma_pow2_unfold, pow2,
};
use vstd::prelude::*;
use vstd::relations::total_ordering;

verus! {

/// Every sample that counts is between two counts.
pub open spec fn are_between(samples: Seq<i64>, low: int, high: int) -> bool {
    forall|i: int| 0 <= i < samples.len() && #[trigger] samples[i] > 0 ==> low <= samples[i] <= high
}

proof fn lemma_filtered(samples: Seq<i64>, low: int, high: int)
    requires
        are_between(samples, low, high),
    ensures
        ({
            let kept = samples.filter(|n: i64| n > 0);
            &&& kept.len() <= samples.len()
            &&& forall|i: int|
                0 <= i < kept.len() ==> 0 < #[trigger] kept[i] && low <= kept[i] <= high
        }),
        (exists|i: int| 0 <= i < samples.len() && #[trigger] samples[i] > 0) ==> samples.filter(
            |n: i64| n > 0,
        ).len() > 0,
    decreases samples.len(),
{
    reveal(Seq::filter);
    let pred = |n: i64| n > 0;
    if samples.len() > 0 {
        let rest = samples.drop_last();
        assert forall|i: int| 0 <= i < rest.len() && #[trigger] rest[i] > 0 implies low <= rest[i]
            <= high by {
            assert(rest[i] == samples[i]);
        }
        lemma_filtered(rest, low, high);
        let kept = samples.filter(pred);
        assert(samples[samples.len() - 1] == samples.last());
        if exists|i: int| 0 <= i < samples.len() && #[trigger] samples[i] > 0 {
            let i = choose|i: int| 0 <= i < samples.len() && #[trigger] samples[i] > 0;
            if i < rest.len() {
                assert(rest[i] > 0);
            }
        }
    }
}

/// The samples that count are those above zero; in ascending order there are as many of them,
/// each is one of them, and none comes before a smaller one.
pub proof fn law_samples_in_order(samples: Seq<i64>, low: int, high: int)
    requires
        are_between(samples, low, high),
    ensures
        ({
            let sorted = ascending(samples);
            &&& sorted.len() == samples.filter(|n: i64| n > 0).len()
            &&& sorted.len() <= samples.len()
            &&& forall|i: int, j: int|
                0 <= i < j < sorted.len() ==> #[trigger] sorted[i] <= #[trigger] sorted[j]
            &&& forall|i: int|
                0 <= i < sorted.len() ==> 0 < #[trigger] sorted[i] && low <= sorted[i] <= high
            &&& sorted.to_multiset() == samples.filter(|n: i64| n > 0).to_multiset()
        }),
        (exists|i: int| 0 <= i < samples.len() && #[trigger] samples[i] > 0) ==> ascending(
            samples,
        ).len() > 0,
{
    let kept = samples.filter(|n: i64| n > 0);
    let leq = |a: i64, b: i64| no_larger(a, b);
    let sorted = ascending(samples);
    lemma_filtered(samples, low, high);
    assert(total_ordering(leq));
    kept.lemma_sort_by_ensures(leq);
    kept.to_multiset_ensures();
    sorted.to_multiset_ensures();
    assert(sorted.len() == sorted.to_multiset().len());
    assert forall|i: int| 0 <= i < sorted.len() implies 0 < #[trigger] sorted[i] && low <= sorted[i]
        <= high by {
        assert(sorted.contains(sorted[i]));
        assert(kept.contains(sorted[i]));
        let k = choose|k: int| 0 <= k < kept.len() && kept[k] == sorted[i];
        assert(kept[k] == sorted[i]);
    }
    assert forall|i: int, j: int| 0 <= i < j < sorted.len() implies #[trigger] sorted[i]
        <= #[trigger] sorted[j] by {
        assert(leq(sorted[i], sorted[j]));
    }
}

proof fn lemma_sum_is_between(numbers: Seq<i64>, low: int, high: int)
    requires
        forall|i: int| 0 <= i < numbers.len() ==> low <= #[trigger] numbers[i] <= high,
    ensures
        low * numbers.len() <= sum_of(numbers) <= high * numbers.len(),
    decreases numbers.len(),
{
    if numbers.len() > 0 {
        lemma_sum_is_between(numbers.drop_last(), low, high);
        let n = numbers.len() as int;
        assert(low * (n - 1) + low == low * n) by (nonlinear_arith);
        assert(high * (n - 1) + high == high * n) by (nonlinear_arith);
    }
}

/// The middle of numbers in order is no smaller than half of them and no larger than half of
/// them: it is the number at the middle, or half way between the two there.
pub proof fn law_middle_of_samples(sorted: Seq<i64>)
    requires
        sorted.len() > 0,
    ensures
        sorted.len() % 2 == 1 ==> median_twice(sorted) == 2 * sorted[(sorted.len() - 1) / 2],
        sorted.len() % 2 == 0 ==> median_twice(sorted) == sorted[sorted.len() / 2 - 1]
            + sorted[sorted.len() as int / 2],
{
}

/// For the mean a fifth of the samples is left out at each end.
pub proof fn law_ends_are_left_out(sorted: Seq<i64>)
    ensures
        5 * trim_count(sorted.len() as int) <= sorted.len() < 5 * trim_count(sorted.len() as int)
            + 5,
        without_ends(sorted).len() == sorted.len() - 2 * trim_count(sorted.len() as int),
        forall|i: int|
            0 <= i < without_ends(sorted).len() ==> #[trigger] without_ends(sorted)[i] == sorted[i
                + trim_count(sorted.len() as int)],
        sorted.len() > 0 ==> without_ends(sorted).len() > 0,
{
}

proof fn lemma_bounds()
    ensures
        pow2(1074) >= pow2(64),
        pow2(1074) > 0,
        pow2(1075) == 2 * pow2(1074),
        pow2(40) == 0x100_0000_0000,
        pow2(50) == 0x4_0000_0000_0000,
        pow2(53) == 0x20_0000_0000_0000,
        pow2(60) == 0x1000_0000_0000_0000,
{
    lemma2_to64();
    lemma_pow2_pos(1074);
    lemma_pow2_strictly_increases(64, 1074);
    lemma_pow2_unfold(1075);
    lemma_pow2_adds(32, 8);
    lemma_pow2_adds(32, 18);
    lemma_pow2_adds(32, 21);
    lemma_pow2_adds(32, 28);
}

/// The middle, as a double, is between the samples, but for a sixteenth of a count.
proof fn lemma_middle_is_between(sorted: Seq<i64>, low: int, high: int, one: nat)
    requires
        one == pow2(1074),
        sorted.len() > 0,
        0 < low <= high < 0x100_0000_0000,
        forall|i: int| 0 <= i < sorted.len() ==> low <= #[trigger] sorted[i] <= high,
    ensures
        16 * middle_double(sorted) >= 16 * (low * one) - one,
        16 * middle_double(sorted) <= 16 * (high * one) + one,
{
    lemma_bounds();
    let mid = sorted.len() as int / 2;
    if sorted.len() % 2 == 1 {
        let c = sorted[mid] as nat;
        law_small_numbers_are_exact(c);
        assert(low * one <= c * one <= high * one) by (nonlinear_arith)
            requires
                low <= c <= high,
        ;
    } else {
        let a = sorted[mid - 1] as nat;
        let b = sorted[mid] as nat;
        law_small_numbers_are_exact(a);
        law_small_numbers_are_exact(b);
        law_small_numbers_are_exact(a + b);
        assert(a * one + b * one == (a + b) * one) by (nonlinear_arith);
        let t = (a + b) * one;
        assert(2 * (low * one) <= t <= 2 * (high * one)) by (nonlinear_arith)
            requires
                t == (a + b) * one,
                2 * low <= a + b <= 2 * high,
        ;
        assert(t < pow2(50) * one) by (nonlinear_arith)
            requires
                t == (a + b) * one,
                a + b < pow2(50),
                one > 0,
        ;
        lemma_nearest_is_close(t, 2, one);
        assert(middle_double(sorted) == nearest(t, 2));
    }
}

/// The mean, as a double, is between the samples, but for an eighth of a count.
proof fn lemma_mean_is_between(numbers: Seq<i64>, low: int, high: int, one: nat)
    requires
        one == pow2(1074),
        0 < numbers.len() <= 1000,
        0 < low <= high < 0x100_0000_0000,
        forall|i: int| 0 <= i < numbers.len() ==> low <= #[trigger] numbers[i] <= high,
    ensures
        8 * mean_double(numbers) >= 8 * (low * one) - one,
        8 * mean_double(numbers) <= 8 * (high * one) + one,
{
    lemma_bounds();
    let len = numbers.len();
    lemma_sum_is_between(numbers, low, high);
    let total = sum_of(numbers);
    assert(0 <= low * len) by (nonlinear_arith)
        requires
            low > 0,
    ;
    assert(high * len < 0x4_0000_0000_0000) by (nonlinear_arith)
        requires
            high < 0x100_0000_0000,
            0 < len <= 1000,
    ;
    let n = total as nat;
    law_small_numbers_are_exact(n);
    lemma_small_divisor(len);
    let x = n * one;
    assert(x < pow2(50) * one) by (nonlinear_arith)
        requires
            x == n * one,
            n < pow2(50),
            one > 0,
    ;
    lemma_nearest_is_close(x, len, one);
    let q = nearest(x, len);
    assert(mean_double(numbers) == q);
    assert((low * one) * len <= x <= (high * one) * len) by (nonlinear_arith)
        requires
            x == n * one,
            low * len <= n <= high * len,
    ;
    assert(8 * q >= 8 * (low * one) - one) by (nonlinear_arith)
        requires
            8 * (q * len) >= 8 * ((low * one) * len) - one,
            len >= 1,
            one >= 0,
    ;
    assert(8 * q <= 8 * (high * one) + one) by (nonlinear_arith)
        requires
            8 * (q * len) <= 8 * ((high * one) * len) + one,
            len >= 1,
            one >= 0,
    ;
}

proof fn lemma_small_divisor(len: nat)
    requires
        0 < len <= 1000,
    ensures
        nearest(len, 1) == len,
{
    lemma_bounds();
    lemma2_to64();
    assert(1 * pow2(53) == pow2(53));
    assert(crate::double::spare_bits(len, 1, 0) == 0);
    assert(len / 1 == len && len % 1 == 0);
    assert(crate::double::half_even(len, 1) == len);
    assert(len * 1 == len);
}

/// The count that is made of samples is no smaller than the smallest of them and no larger than
/// the largest; those that are not above zero do not count, and without any there is none.
pub proof fn law_count_is_between_the_samples(samples: Seq<i64>, low: int, high: int)
    requires
        are_between(samples, low, high),
        0 < low <= high < 0x100_0000_0000,
        samples.len() <= 1000,
    ensures
        (exists|i: int| 0 <= i < samples.len() && #[trigger] samples[i] > 0) ==> (robust_count(
            samples,
        ) matches Some(count) && low <= count <= high),
        (forall|i: int| 0 <= i < samples.len() ==> #[trigger] samples[i] <= 0) ==> robust_count(
            samples,
        ) is None,
{
    law_samples_in_order(samples, low, high);
    let sorted = ascending(samples);
    if forall|i: int| 0 <= i < samples.len() ==> #[trigger] samples[i] <= 0 {
        law_samples_in_order(samples, 1, 0);
        if sorted.len() > 0 {
            assert(1 <= sorted[0] <= 0);
        }
    }
    if sorted.len() > 0 {
        let one = pow2(1074);
        lemma_bounds();
        lemma_pow2_pos(1074);
        lemma_middle_is_between(sorted, low, high, one);
        let kept = without_ends(sorted);
        law_ends_are_left_out(sorted);
        assert forall|i: int| 0 <= i < kept.len() implies low <= #[trigger] kept[i] <= high by {
            assert(kept[i] == sorted[i + trim_count(sorted.len() as int)]);
        }
        lemma_mean_is_between(kept, low, high, one);
        let m = middle_double(sorted);
        let q = mean_double(kept);
        assert(high * one + one <= 0x100_0000_0000 * one) by (nonlinear_arith)
            requires
                high + 1 <= 0x100_0000_0000,
        ;
        assert(pow2(50) * one == 1024 * (0x100_0000_0000 * one)) by (nonlinear_arith)
            requires
                pow2(50) == 1024 * 0x100_0000_0000,
        ;
        lemma_nearest_is_close(m + q, 1, one);
        let t = sum(m, q);
        assert(t * 1 == t);
        lemma_nearest_is_close(t, 2, one);
        let b = quotient(t, 2);
        let blended = rounded(b);
        assert(16 * b >= 16 * (low * one) - 4 * one);
        assert(16 * b <= 16 * (high * one) + 4 * one);
        let d = 2 * one;
        assert(low <= blended) by {
            assert(low * d == 2 * (low * one)) by (nonlinear_arith)
                requires
                    d == 2 * one,
            ;
            vstd::arithmetic::div_mod::lemma_div_is_ordered(low * d, (2 * b + one) as int, d as int);
            assert(d * low == low * d) by (nonlinear_arith);
            vstd::arithmetic::div_mod::lemma_div_multiples_vanish(low, d as int);
        }
        assert(blended <= high) by {
            assert((high + 1) * d == 2 * (high * one) + 2 * one) by (nonlinear_arith)
                requires
                    d == 2 * one,
            ;
            vstd::arithmetic::div_mod::lemma_fundamental_div_mod((2 * b + one) as int, d as int);
            if blended >= high + 1 {
                assert(d * blended >= (high + 1) * d) by (nonlinear_arith)
                    requires
                        blended >= high + 1,
                        d > 0,
                ;
            }
        }
    }
}

/// The smallest movement of equal samples is what they are, up to its limit.
pub proof fn law_equal_samples_are_their_count(samples: Seq<i64>, count: i64, span: int)
    requires
        0 < samples.len() <= 1000,
        0 < count < 0x100_0000_0000,
        forall|i: int| 0 <= i < samples.len() ==> #[trigger] samples[i] == count,
    ensures
        robust_count(samples) == Some(count as int),
        count <= deadband_limit(span) ==> deadband_from(samples, span) == count,
        count > deadband_limit(span) ==> deadband_from(samples, span) == deadband_limit(span),
{
    assert(samples[0] > 0);
    law_count_is_between_the_samples(samples, count as int, count as int);
}

} // verus!
