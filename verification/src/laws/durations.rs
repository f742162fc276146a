//! Durations as texts: what is written is read again.
use crate::double::{law_thousandths_come_back, law_whole_numbers_come_back};
use crate::laws::documents::{law_letters_are_found, law_white_space_is_trimmed};
use crate::laws::onvif::law_three_digits_are_the_number;
use crate::reolink::onvif::{duration_text, three_digits};
use crate::text::{all_digits, dec, digits_value, is_digit, law_dec_reads_back, lemma_index_of};
use crate::usecases::ptz_set_absolute_raw::duration_ms_of;
use crate::usecases::seconds_text::{
    exponent_index, fraction_part, mantissa_of, pow10, seconds_ms, whole_part,
};
use vstd::arithmetic::power2::{lemma2_to64, lemma_pow2_strictly_increases, pow2};
use vstd::prelude::*;

verus! {

proof fn lemma_no_exponent(s: Seq<char>, from: int)
    requires
        0 <= from <= s.len(),
        forall|i: int| from <= i < s.len() ==> #[trigger] s[i] != 'e' && s[i] != 'E',
    ensures
        exponent_index(s, from) == s.len(),
    decreases s.len() - from,
{
    if from < s.len() {
        assert(s[from] != 'e');
        lemma_no_exponent(s, from + 1);
    }
}

/// Whole seconds are a thousand milliseconds each.
pub proof fn law_whole_seconds(seconds: nat)
    requires
        1000 * seconds < pow2(50),
    ensures
        seconds_ms(dec(seconds)) == Some((1000 * seconds) as u64),
{
    let s = dec(seconds);
    law_dec_reads_back(seconds);
    assert forall|i: int| 0 <= i < s.len() implies #[trigger] s[i] != 'e' && s[i] != 'E' && s[i]
        != '.' && s[i] != '-' && s[i] != '+' by {
        assert(is_digit(s[i]));
    }
    lemma_no_exponent(s, 0);
    assert(mantissa_of(s) =~= s);
    lemma_index_of(s, '.', 0);
    assert(fraction_part(s) =~= Seq::<char>::empty());
    assert(whole_part(s) + fraction_part(s) =~= s);
    assert(s[0] != '-');
    assert(pow10(0) == 1);
    assert(seconds * 1 == seconds);
    law_whole_numbers_come_back(seconds);
    lemma2_to64();
    lemma_pow2_strictly_increases(50, 64);
}

proof fn lemma_value_with_three(a: Seq<char>, b: Seq<char>)
    requires
        b.len() == 3,
        all_digits(b),
    ensures
        digits_value(a + b) == 1000 * digits_value(a) + 100 * (b[0] as int - '0' as int) + 10 * (
        b[1] as int - '0' as int) + (b[2] as int - '0' as int),
{
    let one = a.push(b[0]);
    let two = one.push(b[1]);
    let three = two.push(b[2]);
    assert(a + b =~= three);
    assert(is_digit(b[0]) && is_digit(b[1]) && is_digit(b[2]));
    assert(one.drop_last() =~= a);
    assert(two.drop_last() =~= one);
    assert(three.drop_last() =~= two);
    assert(digits_value(one) == 10 * digits_value(a) + (b[0] as int - 48));
    assert(digits_value(two) == 10 * digits_value(one) + (b[1] as int - 48));
    assert(digits_value(three) == 10 * digits_value(two) + (b[2] as int - 48));
}

/// Seconds with three places are read to the millisecond.
pub proof fn law_seconds_with_three_places(seconds: nat, rest: nat)
    requires
        rest < 1000,
        1000 * seconds + rest < pow2(50),
    ensures
        seconds_ms(dec(seconds) + "."@ + three_digits(rest)) == Some((1000 * seconds + rest) as u64),
{
    reveal_strlit(".");
    let a = dec(seconds);
    let b = three_digits(rest);
    let s = a + "."@ + b;
    law_dec_reads_back(seconds);
    law_three_digits_are_the_number(rest);
    let at = a.len() as int;
    assert forall|i: int| 0 <= i < s.len() implies #[trigger] s[i] != 'e' && s[i] != 'E' && (i != at
        ==> s[i] != '.') by {
        if i < at {
            assert(s[i] == a[i]);
            assert(is_digit(a[i]));
        } else if i > at {
            assert(s[i] == b[i - at - 1]);
        }
    }
    lemma_no_exponent(s, 0);
    assert(mantissa_of(s) =~= s);
    law_letters_are_found(s, '.', 0, at);
    assert(whole_part(s) =~= a);
    assert(fraction_part(s) =~= b);
    assert(all_digits(b));
    lemma_value_with_three(a, b);
    assert(s[0] == a[0]);
    assert(is_digit(a[0]));
    reveal_with_fuel(pow10, 4);
    assert(pow10(3) == 1000);
    law_thousandths_come_back(1000 * seconds + rest);
    lemma2_to64();
    lemma_pow2_strictly_increases(50, 64);
}

/// A duration that is written for the camera is read again as the same duration.
pub proof fn law_durations_read_back(duration_ms: u64)
    requires
        duration_ms < pow2(50),
    ensures
        duration_ms_of(duration_text(duration_ms)) == Some(duration_ms),
{
    reveal_strlit("PT");
    reveal_strlit("S");
    reveal_strlit(".");
    let seconds = (duration_ms / 1000) as nat;
    let rest = (duration_ms % 1000) as nat;
    let text = duration_text(duration_ms);
    law_dec_reads_back(seconds);
    assert(text[0] == 'P' && text.last() == 'S');
    law_white_space_is_trimmed(Seq::empty(), text, Seq::empty());
    assert(Seq::<char>::empty() + text + Seq::<char>::empty() =~= text);
    assert(text.subrange(0, 2) =~= "PT"@);
    let inner = text.subrange(2, text.len() - 1);
    if rest == 0 {
        assert(inner =~= dec(seconds));
        law_whole_seconds(seconds);
    } else {
        assert(inner =~= dec(seconds) + "."@ + three_digits(rest));
        law_seconds_with_three_places(seconds, rest);
    }
}

/// A duration that is not written so is none.
pub proof fn law_other_texts_are_no_durations(text: Seq<char>)
    requires
        text.len() > 0,
        crate::text::trim(text) == text,
    ensures
        text.last() != 'S' || text[0] != 'P' ==> duration_ms_of(text) is None,
{
    reveal_strlit("PT");
    if text.len() >= 2 {
        assert(text.subrange(0, 2)[0] == text[0]);
    }
}

} // verus!
