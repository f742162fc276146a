//! Text as sequences of characters: trimming, searching, decimal numbers.
//!
//! Every function works on characters, never on bytes, so an index into a text
//! is a position in its view.
use vstd::prelude::*;

verus! {

/// `String::push` appends one character.
pub assume_specification[ String::push ](text: &mut String, c: char)
    ensures
        final(text)@ == old(text)@.push(c),
;

// ---------------------------------------------------------------- characters

/// The characters with the Unicode property `White_Space`.
pub open spec fn is_space(c: char) -> bool {
    ||| '\u{9}' <= c <= '\u{d}'
    ||| c == ' '
    ||| c == '\u{85}'
    ||| c == '\u{a0}'
    ||| c == '\u{1680}'
    ||| '\u{2000}' <= c <= '\u{200a}'
    ||| c == '\u{2028}'
    ||| c == '\u{2029}'
    ||| c == '\u{202f}'
    ||| c == '\u{205f}'
    ||| c == '\u{3000}'
}

pub open spec fn is_digit(c: char) -> bool {
    '0' <= c <= '9'
}

pub open spec fn lower_char(c: char) -> char {
    if 'A' <= c <= 'Z' {
        (c as int + 32) as char
    } else {
        c
    }
}

/// The text with its ASCII capitals turned into small letters.
pub open spec fn lower(s: Seq<char>) -> Seq<char> {
    Seq::new(s.len(), |i: int| lower_char(s[i]))
}

/// The decimal digit for a number below ten.
pub open spec fn digit_char(d: nat) -> char {
    (48 + d) as char
}

pub fn char_is_space(c: char) -> (r: bool)
    ensures
        r == is_space(c),
{
    ('\u{9}' <= c && c <= '\u{d}') || c == ' ' || c == '\u{85}' || c == '\u{a0}' || c == '\u{1680}'
        || ('\u{2000}' <= c && c <= '\u{200a}') || c == '\u{2028}' || c == '\u{2029}' || c
        == '\u{202f}' || c == '\u{205f}' || c == '\u{3000}'
}

pub fn char_is_digit(c: char) -> (r: bool)
    ensures
        r == is_digit(c),
{
    '0' <= c && c <= '9'
}

pub fn char_to_lower(c: char) -> (r: char)
    ensures
        r == lower_char(c),
{
    if 'A' <= c && c <= 'Z' {
        let code: u8 = c as u8;
        (code + 32) as char
    } else {
        c
    }
}

pub fn digit_to_char(d: u8) -> (r: char)
    requires
        d < 10,
    ensures
        r == digit_char(d as nat),
{
    (48 + d) as char
}

// ---------------------------------------------------------------- conversions

/// The characters of a text.
pub fn to_chars(s: &str) -> (r: Vec<char>)
    ensures
        r@ == s@,
{
    let mut out: Vec<char> = Vec::new();
    for c in it: s.chars()
        invariant
            out@ == it.seq().take(it.index()),
            it.seq() == s@,
    {
        proof {
            assert(it.seq().take(it.index() + 1) =~= it.seq().take(it.index()).push(c));
        }
        out.push(c);
    }
    out
}

/// The text made of the given characters.
pub fn from_chars(chars: &[char]) -> (r: String)
    ensures
        r@ == chars@,
{
    let mut out: String = String::new();
    let mut i: usize = 0;
    while i < chars.len()
        invariant
            i <= chars.len(),
            out@ == chars@.take(i as int),
        decreases chars.len() - i,
    {
        proof {
            assert(chars@.take(i + 1) =~= chars@.take(i as int).push(chars@[i as int]));
        }
        out.push(chars[i]);
        i = i + 1;
    }
    proof {
        assert(chars@.take(i as int) =~= chars@);
    }
    out
}

/// The part of a text between two positions.
pub fn slice_text(chars: &[char], from: usize, to: usize) -> (r: String)
    requires
        from <= to <= chars.len(),
    ensures
        r@ == chars@.subrange(from as int, to as int),
{
    from_chars(vstd::slice::slice_subrange(chars, from, to))
}

/// Two texts are the same text.
pub fn same_text(a: &str, b: &str) -> (r: bool)
    ensures
        r == (a@ == b@),
{
    a.to_owned() == b.to_owned()
}

pub fn join2(a: &str, b: &str) -> (r: String)
    ensures
        r@ == a@ + b@,
{
    let mut out: String = a.to_owned();
    out.append(b);
    out
}

pub fn join3(a: &str, b: &str, c: &str) -> (r: String)
    ensures
        r@ == a@ + b@ + c@,
{
    let mut out: String = a.to_owned();
    out.append(b);
    out.append(c);
    out
}

pub fn lower_text(s: &str) -> (r: String)
    ensures
        r@ == lower(s@),
{
    let chars = to_chars(s);
    let mut out: String = String::new();
    let mut i: usize = 0;
    while i < chars.len()
        invariant
            i <= chars.len(),
            chars@ == s@,
            out@ == lower(s@.take(i as int)),
        decreases chars.len() - i,
    {
        out.push(char_to_lower(chars[i]));
        proof {
            assert(lower(s@.take(i + 1)) =~= lower(s@.take(i as int)).push(lower_char(s@[i as int])));
        }
        i = i + 1;
    }
    proof {
        assert(s@.take(i as int) =~= s@);
    }
    out
}

// ---------------------------------------------------------------- trimming

/// The text without its leading white space.
pub open spec fn trim_start(s: Seq<char>) -> Seq<char>
    decreases s.len(),
{
    if s.len() > 0 && is_space(s[0]) {
        trim_start(s.drop_first())
    } else {
        s
    }
}

/// The text without its trailing white space.
pub open spec fn trim_end(s: Seq<char>) -> Seq<char>
    decreases s.len(),
{
    if s.len() > 0 && is_space(s.last()) {
        trim_end(s.drop_last())
    } else {
        s
    }
}

/// The text without the white space at its two ends.
pub open spec fn trim(s: Seq<char>) -> Seq<char> {
    trim_end(trim_start(s))
}

/// How many leading white-space characters `chars` has.
fn leading_space(chars: &[char]) -> (n: usize)
    ensures
        n <= chars.len(),
        trim_start(chars@) == chars@.skip(n as int),
{
    let mut i: usize = 0;
    proof {
        assert(chars@.skip(0) =~= chars@);
    }
    while i < chars.len() && char_is_space(chars[i])
        invariant
            i <= chars.len(),
            trim_start(chars@) == trim_start(chars@.skip(i as int)),
        decreases chars.len() - i,
    {
        proof {
            assert(chars@.skip(i as int).drop_first() =~= chars@.skip(i + 1));
        }
        i = i + 1;
    }
    i
}

/// The end of `chars[from..]` without its trailing white space.
fn trailing_end(chars: &[char], from: usize) -> (n: usize)
    requires
        from <= chars.len(),
    ensures
        from <= n <= chars.len(),
        trim_end(chars@.skip(from as int)) == chars@.subrange(from as int, n as int),
{
    let mut end: usize = chars.len();
    proof {
        assert(chars@.skip(from as int) =~= chars@.subrange(from as int, end as int));
    }
    while end > from && char_is_space(chars[end - 1])
        invariant
            from <= end <= chars.len(),
            trim_end(chars@.skip(from as int)) == trim_end(
                chars@.subrange(from as int, end as int),
            ),
        decreases end,
    {
        proof {
            let part = chars@.subrange(from as int, end as int);
            assert(part.last() == chars@[end - 1]);
            assert(part.drop_last() =~= chars@.subrange(from as int, end - 1));
        }
        end = end - 1;
    }
    proof {
        if end > from {
            assert(chars@.subrange(from as int, end as int).last() == chars@[end - 1]);
        }
    }
    end
}

/// The positions between which `chars` has its trimmed text.
pub fn trim_bounds(chars: &[char]) -> (r: (usize, usize))
    ensures
        r.0 <= r.1 <= chars.len(),
        trim(chars@) == chars@.subrange(r.0 as int, r.1 as int),
{
    let from: usize = leading_space(chars);
    let to: usize = trailing_end(chars, from);
    (from, to)
}

pub fn trim_text(s: &str) -> (r: String)
    ensures
        r@ == trim(s@),
{
    let chars = to_chars(s);
    let (from, to) = trim_bounds(chars.as_slice());
    slice_text(chars.as_slice(), from, to)
}

/// The text has a character that is not white space.
pub fn is_blank(s: &str) -> (r: bool)
    ensures
        r == (trim(s@).len() == 0),
{
    let chars = to_chars(s);
    let (from, to) = trim_bounds(chars.as_slice());
    from == to
}

// ---------------------------------------------------------------- searching

/// `pat` stands in `s` at position `i`.
pub open spec fn occurs_at(s: Seq<char>, pat: Seq<char>, i: int) -> bool {
    0 <= i && i + pat.len() <= s.len() && s.subrange(i, i + pat.len()) == pat
}

/// The first position at or after `from` at which `pat` stands in `s`.
pub open spec fn find_from(s: Seq<char>, pat: Seq<char>, from: int) -> Option<int>
    decreases s.len() - from + 1,
{
    if from < 0 || from + pat.len() > s.len() {
        None
    } else if occurs_at(s, pat, from) {
        Some(from)
    } else {
        find_from(s, pat, from + 1)
    }
}

/// `pat` stands somewhere in `s`.
pub open spec fn contains(s: Seq<char>, pat: Seq<char>) -> bool {
    exists|i: int| occurs_at(s, pat, i)
}

pub open spec fn starts_with(s: Seq<char>, pat: Seq<char>) -> bool {
    occurs_at(s, pat, 0)
}

pub open spec fn ends_with(s: Seq<char>, pat: Seq<char>) -> bool {
    occurs_at(s, pat, s.len() - pat.len())
}

/// What `find_from` finds is an occurrence, and none stands before it.
pub proof fn lemma_find_from(s: Seq<char>, pat: Seq<char>, from: int)
    requires
        0 <= from,
    ensures
        match find_from(s, pat, from) {
            Some(i) => from <= i && occurs_at(s, pat, i) && forall|j: int|
                from <= j < i ==> !occurs_at(s, pat, j),
            None => forall|j: int| from <= j ==> !occurs_at(s, pat, j),
        },
    decreases s.len() - from + 1,
{
    if from + pat.len() <= s.len() && !occurs_at(s, pat, from) {
        lemma_find_from(s, pat, from + 1);
    }
}

/// `pat` stands in `chars` at position `i`.
pub fn chars_occur_at(chars: &[char], pat: &[char], i: usize) -> (r: bool)
    ensures
        r == occurs_at(chars@, pat@, i as int),
{
    if i > chars.len() || chars.len() - i < pat.len() {
        return false;
    }
    let mut k: usize = 0;
    while k < pat.len()
        invariant
            i + pat.len() <= chars.len(),
            k <= pat.len(),
            forall|j: int| 0 <= j < k ==> chars@[i + j] == pat@[j],
        decreases pat.len() - k,
    {
        if chars[i + k] != pat[k] {
            proof {
                assert(chars@.subrange(i as int, i + pat.len())[k as int] != pat@[k as int]);
            }
            return false;
        }
        k = k + 1;
    }
    proof {
        assert(chars@.subrange(i as int, i + pat.len()) =~= pat@);
    }
    true
}

/// The first position at or after `from` at which `pat` stands in `chars`.
pub fn find_chars(chars: &[char], pat: &[char], from: usize) -> (r: Option<usize>)
    ensures
        match r {
            Some(i) => find_from(chars@, pat@, from as int) == Some(i as int) && i + pat.len()
                <= chars.len() && from <= i,
            None => find_from(chars@, pat@, from as int) is None,
        },
{
    let mut i: usize = from;
    while i <= chars.len() && pat.len() <= chars.len() - i
        invariant
            from <= i,
            find_from(chars@, pat@, from as int) == find_from(chars@, pat@, i as int),
        decreases chars.len() - i + 1,
    {
        if chars_occur_at(chars, pat, i) {
            return Some(i);
        }
        if i == chars.len() {
            proof {
                assert(find_from(chars@, pat@, i + 1) is None);
            }
            return None;
        }
        i = i + 1;
    }
    None
}

/// The first position of a text at which `pat` stands.
pub fn find_text(s: &str, pat: &str) -> (r: Option<usize>)
    ensures
        match r {
            Some(i) => find_from(s@, pat@, 0) == Some(i as int),
            None => find_from(s@, pat@, 0) is None,
        },
{
    find_chars(to_chars(s).as_slice(), to_chars(pat).as_slice(), 0)
}

pub fn contains_text(s: &str, pat: &str) -> (r: bool)
    ensures
        r == contains(s@, pat@),
{
    let found = find_text(s, pat);
    proof {
        lemma_find_from(s@, pat@, 0);
    }
    found.is_some()
}

pub fn starts_with_text(s: &str, pat: &str) -> (r: bool)
    ensures
        r == starts_with(s@, pat@),
{
    chars_occur_at(to_chars(s).as_slice(), to_chars(pat).as_slice(), 0)
}

pub fn ends_with_text(s: &str, pat: &str) -> (r: bool)
    ensures
        r == ends_with(s@, pat@),
{
    let chars = to_chars(s);
    let tail = to_chars(pat);
    if tail.len() > chars.len() {
        return false;
    }
    chars_occur_at(chars.as_slice(), tail.as_slice(), chars.len() - tail.len())
}

/// The first position of a character at or after `from`.
pub open spec fn index_of(s: Seq<char>, c: char, from: int) -> Option<int>
    decreases s.len() - from,
{
    if from < 0 || from >= s.len() {
        None
    } else if s[from] == c {
        Some(from)
    } else {
        index_of(s, c, from + 1)
    }
}

/// What `index_of` finds is the character, and it does not stand before.
pub proof fn lemma_index_of(s: Seq<char>, c: char, from: int)
    requires
        0 <= from,
    ensures
        match index_of(s, c, from) {
            Some(i) => from <= i < s.len() && s[i] == c && forall|j: int|
                from <= j < i ==> s[j] != c,
            None => forall|j: int| from <= j < s.len() ==> s[j] != c,
        },
    decreases s.len() - from,
{
    if from < s.len() && s[from] != c {
        lemma_index_of(s, c, from + 1);
    }
}

pub fn index_of_char(chars: &[char], c: char, from: usize) -> (r: Option<usize>)
    ensures
        match r {
            Some(i) => index_of(chars@, c, from as int) == Some(i as int) && from <= i < chars.len()
                && chars@[i as int] == c,
            None => index_of(chars@, c, from as int) is None,
        },
{
    let mut i: usize = from;
    while i < chars.len()
        invariant
            from <= i,
            index_of(chars@, c, from as int) == index_of(chars@, c, i as int),
        decreases chars.len() - i,
    {
        if chars[i] == c {
            return Some(i);
        }
        i = i + 1;
    }
    None
}

/// The last position of a character.
pub open spec fn last_index_of(s: Seq<char>, c: char) -> Option<int>
    decreases s.len(),
{
    if s.len() == 0 {
        None
    } else if s.last() == c {
        Some(s.len() - 1)
    } else {
        last_index_of(s.drop_last(), c)
    }
}

pub fn last_index_of_char(chars: &[char], c: char) -> (r: Option<usize>)
    ensures
        match r {
            Some(i) => last_index_of(chars@, c) == Some(i as int) && i < chars.len(),
            None => last_index_of(chars@, c) is None,
        },
{
    let mut end: usize = chars.len();
    proof {
        assert(chars@.take(end as int) =~= chars@);
    }
    while end > 0
        invariant
            end <= chars.len(),
            last_index_of(chars@, c) == last_index_of(chars@.take(end as int), c),
        decreases end,
    {
        proof {
            assert(chars@.take(end as int).last() == chars@[end - 1]);
            assert(chars@.take(end as int).drop_last() =~= chars@.take(end - 1));
        }
        if chars[end - 1] == c {
            return Some(end - 1);
        }
        end = end - 1;
    }
    None
}

// ---------------------------------------------------------------- numbers

/// The decimal text of a number.
pub open spec fn dec(n: nat) -> Seq<char>
    decreases n,
{
    if n < 10 {
        seq![digit_char(n)]
    } else {
        dec(n / 10).push(digit_char(n % 10))
    }
}

/// The decimal text of an integer, with a minus sign below zero.
pub open spec fn dec_int(i: int) -> Seq<char> {
    if i < 0 {
        seq!['-'] + dec((-i) as nat)
    } else {
        dec(i as nat)
    }
}

pub open spec fn all_digits(s: Seq<char>) -> bool {
    forall|i: int| 0 <= i < s.len() ==> is_digit(s[i])
}

/// The number that a text of digits denotes.
pub open spec fn digits_value(s: Seq<char>) -> nat
    decreases s.len(),
{
    if s.len() == 0 {
        0
    } else {
        digits_value(s.drop_last()) * 10 + (s.last() as int - 48) as nat
    }
}

/// The number, at most `max`, that a text denotes: digits after an optional plus sign.
pub open spec fn parse_unsigned(s: Seq<char>, max: nat) -> Option<nat> {
    let digits = if s.len() > 0 && s[0] == '+' {
        s.drop_first()
    } else {
        s
    };
    if digits.len() > 0 && all_digits(digits) && digits_value(digits) <= max {
        Some(digits_value(digits))
    } else {
        None
    }
}

/// The integer in the range of `i64` that a text denotes: digits after an optional sign.
pub open spec fn parse_signed(s: Seq<char>) -> Option<int> {
    if s.len() > 0 && s[0] == '-' {
        let digits = s.drop_first();
        if digits.len() > 0 && all_digits(digits) && digits_value(digits) <= 0x8000_0000_0000_0000 {
            Some(-(digits_value(digits) as int))
        } else {
            None
        }
    } else {
        match parse_unsigned(s, i64::MAX as nat) {
            Some(n) => Some(n as int),
            None => None,
        }
    }
}

pub fn dec_u64(n: u64) -> (r: String)
    ensures
        r@ == dec(n as nat),
    decreases n,
{
    if n < 10 {
        let mut out: String = String::new();
        out.push(digit_to_char(n as u8));
        proof {
            assert(out@ =~= dec(n as nat));
        }
        out
    } else {
        let mut out: String = dec_u64(n / 10);
        out.push(digit_to_char((n % 10) as u8));
        out
    }
}

pub fn dec_i64(i: i64) -> (r: String)
    ensures
        r@ == dec_int(i as int),
{
    if i < 0 {
        let magnitude: u64 = if i == i64::MIN {
            0x8000_0000_0000_0000
        } else {
            (-i) as u64
        };
        let mut out: String = String::new();
        out.push('-');
        proof {
            assert(out@ =~= seq!['-']);
        }
        out.append(dec_u64(magnitude).as_str());
        out
    } else {
        dec_u64(i as u64)
    }
}

pub fn chars_all_digits(chars: &[char]) -> (r: bool)
    ensures
        r == all_digits(chars@),
{
    let mut i: usize = 0;
    while i < chars.len()
        invariant
            i <= chars.len(),
            forall|j: int| 0 <= j < i ==> is_digit(chars@[j]),
        decreases chars.len() - i,
    {
        if !char_is_digit(chars[i]) {
            return false;
        }
        i = i + 1;
    }
    true
}

/// A longer text of digits denotes no smaller number.
proof fn lemma_digits_value_grows(s: Seq<char>, k: int)
    requires
        0 <= k <= s.len(),
    ensures
        digits_value(s.take(k)) <= digits_value(s),
    decreases s.len() - k,
{
    if k == s.len() {
        assert(s.take(k) =~= s);
    } else {
        assert(s.take(k + 1).drop_last() =~= s.take(k));
        lemma_digits_value_grows(s, k + 1);
    }
}

/// The number that digits denote, unless it is above `u64::MAX`.
fn digits_to_u64(chars: &[char]) -> (r: Option<u64>)
    requires
        all_digits(chars@),
    ensures
        match r {
            Some(n) => n == digits_value(chars@),
            None => digits_value(chars@) > u64::MAX,
        },
{
    let mut value: u64 = 0;
    let mut i: usize = 0;
    proof {
        assert(chars@.take(0) =~= Seq::<char>::empty());
    }
    while i < chars.len()
        invariant
            all_digits(chars@),
            i <= chars.len(),
            value == digits_value(chars@.take(i as int)),
        decreases chars.len() - i,
    {
        proof {
            assert(chars@.take(i + 1).drop_last() =~= chars@.take(i as int));
            assert(chars@.take(i + 1).last() == chars@[i as int]);
            lemma_digits_value_grows(chars@, i + 1);
        }
        let d: u64 = (chars[i] as u32 - 48) as u64;
        if value > u64::MAX / 10 || value * 10 > u64::MAX - d {
            return None;
        }
        value = value * 10 + d;
        i = i + 1;
    }
    proof {
        assert(chars@.take(i as int) =~= chars@);
    }
    Some(value)
}

/// The number, at most `max`, that a text denotes.
pub fn parse_u64_max(s: &str, max: u64) -> (r: Option<u64>)
    ensures
        match r {
            Some(n) => parse_unsigned(s@, max as nat) == Some(n as nat) && n <= max,
            None => parse_unsigned(s@, max as nat) is None,
        },
{
    let chars = to_chars(s);
    let from: usize = if chars.len() > 0 && chars[0] == '+' {
        1
    } else {
        0
    };
    let digits = vstd::slice::slice_subrange(chars.as_slice(), from, chars.len());
    proof {
        if from == 1 {
            assert(digits@ =~= s@.drop_first());
        } else {
            assert(digits@ =~= s@);
        }
    }
    if digits.len() == 0 || !chars_all_digits(digits) {
        return None;
    }
    match digits_to_u64(digits) {
        Some(n) => if n <= max {
            Some(n)
        } else {
            None
        },
        None => None,
    }
}

pub fn parse_i64_text(s: &str) -> (r: Option<i64>)
    ensures
        match r {
            Some(n) => parse_signed(s@) == Some(n as int),
            None => parse_signed(s@) is None,
        },
{
    let chars = to_chars(s);
    if chars.len() > 0 && chars[0] == '-' {
        let digits = vstd::slice::slice_subrange(chars.as_slice(), 1, chars.len());
        proof {
            assert(digits@ =~= s@.drop_first());
        }
        if digits.len() == 0 || !chars_all_digits(digits) {
            return None;
        }
        match digits_to_u64(digits) {
            Some(n) => if n == 0x8000_0000_0000_0000 {
                Some(i64::MIN)
            } else if n < 0x8000_0000_0000_0000 {
                Some(-(n as i64))
            } else {
                None
            },
            None => None,
        }
    } else {
        match parse_u64_max(s, i64::MAX as u64) {
            Some(n) => Some(n as i64),
            None => None,
        }
    }
}

pub fn parse_u8_text(s: &str) -> (r: Option<u8>)
    ensures
        match r {
            Some(n) => parse_unsigned(s@, 255) == Some(n as nat),
            None => parse_unsigned(s@, 255) is None,
        },
{
    match parse_u64_max(s, 255) {
        Some(n) => Some(n as u8),
        None => None,
    }
}

pub fn parse_u16_text(s: &str) -> (r: Option<u16>)
    ensures
        match r {
            Some(n) => parse_unsigned(s@, 65535) == Some(n as nat),
            None => parse_unsigned(s@, 65535) is None,
        },
{
    match parse_u64_max(s, 65535) {
        Some(n) => Some(n as u16),
        None => None,
    }
}

pub fn parse_u64_text(s: &str) -> (r: Option<u64>)
    ensures
        match r {
            Some(n) => parse_unsigned(s@, u64::MAX as nat) == Some(n as nat),
            None => parse_unsigned(s@, u64::MAX as nat) is None,
        },
{
    parse_u64_max(s, u64::MAX)
}

// ---------------------------------------------------------------- laws

/// The decimal text of a number is made of digits, is not empty, and denotes that number.
pub proof fn law_dec_reads_back(n: nat)
    ensures
        dec(n).len() > 0,
        all_digits(dec(n)),
        digits_value(dec(n)) == n,
    decreases n,
{
    reveal_with_fuel(digits_value, 2);
    if n < 10 {
        assert(dec(n).drop_last() =~= Seq::<char>::empty());
    } else {
        law_dec_reads_back(n / 10);
        assert(dec(n).drop_last() =~= dec(n / 10));
    }
}

/// Reading the decimal text of an integer in the range of `i64` gives the integer back.
pub proof fn law_dec_int_reads_back(i: i64)
    ensures
        parse_signed(dec_int(i as int)) == Some(i as int),
{
    if i < 0 {
        law_dec_reads_back((-(i as int)) as nat);
        assert(dec_int(i as int).drop_first() =~= dec((-(i as int)) as nat));
    } else {
        law_dec_reads_back(i as nat);
        assert(is_digit(dec(i as nat)[0]));
    }
}

/// Trimming twice is trimming once.
pub proof fn law_trim_is_idempotent(s: Seq<char>)
    ensures
        trim(trim(s)) == trim(s),
{
    lemma_trim_start_shape(s);
    lemma_trim_end_shape(trim_start(s));
    let t = trim_start(s);
    let u = trim_end(t);
    if u.len() > 0 {
        assert(u[0] == t[0]);
    }
}

/// A text without the white space at its ends is a part of the text.
pub proof fn lemma_trim_is_part(s: Seq<char>)
    ensures
        exists|from: int|
            0 <= from && from + trim(s).len() <= s.len() && trim(s) == #[trigger] s.subrange(
                from,
                from + trim(s).len(),
            ),
{
    lemma_trim_start_shape(s);
    lemma_trim_end_shape(trim_start(s));
    let from = s.len() - trim_start(s).len();
    assert(trim(s) =~= s.subrange(from, from + trim(s).len()));
}

proof fn lemma_trim_start_shape(s: Seq<char>)
    ensures
        trim_start(s).len() <= s.len(),
        trim_start(s) == s.skip(s.len() - trim_start(s).len()),
        trim_start(s).len() > 0 ==> !is_space(trim_start(s)[0]),
    decreases s.len(),
{
    if s.len() > 0 && is_space(s[0]) {
        lemma_trim_start_shape(s.drop_first());
        let t = trim_start(s.drop_first());
        assert(s.drop_first().skip(s.len() - 1 - t.len()) =~= s.skip(s.len() - t.len()));
    } else {
        assert(s.skip(0) =~= s);
    }
}

proof fn lemma_trim_end_shape(s: Seq<char>)
    ensures
        trim_end(s).len() <= s.len(),
        trim_end(s) == s.take(trim_end(s).len() as int),
        trim_end(s).len() > 0 ==> !is_space(trim_end(s).last()),
    decreases s.len(),
{
    if s.len() > 0 && is_space(s.last()) {
        lemma_trim_end_shape(s.drop_last());
        let t = trim_end(s.drop_last());
        assert(s.drop_last().take(t.len() as int) =~= s.take(t.len() as int));
    } else {
        assert(s.take(s.len() as int) =~= s);
    }
}

} // verus!
