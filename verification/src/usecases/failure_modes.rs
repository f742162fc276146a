//! What kept a movement from reaching its target: four counters, and their text in the
//! message of an error.
use crate::text::{
    all_digits, dec, dec_u64, index_of, index_of_char, is_digit, is_space, join3, lemma_index_of,
    law_dec_reads_back, occurs_at, chars_occur_at, parse_u64_text, parse_unsigned, same_text,
    slice_text, to_chars, trim, trim_text,
};
use vstd::prelude::*;

verus! {

#[derive(Debug, Clone, Copy, PartialEq, Eq, Structural)]
pub struct FailureModeCounters {
    pub edge_saturation_hits: u64,
    pub model_mismatch_hits: u64,
    pub axis_swap_lag_hits: u64,
    pub stale_status_hits: u64,
}

pub open spec fn no_failures() -> FailureModeCounters {
    FailureModeCounters {
        edge_saturation_hits: 0,
        model_mismatch_hits: 0,
        axis_swap_lag_hits: 0,
        stale_status_hits: 0,
    }
}

impl Default for FailureModeCounters {
    fn default() -> (r: Self)
        ensures
            r == no_failures(),
    {
        FailureModeCounters {
            edge_saturation_hits: 0,
            model_mismatch_hits: 0,
            axis_swap_lag_hits: 0,
            stale_status_hits: 0,
        }
    }
}

/// What stands before the counters in a message.
pub const COUNTERS_START: &'static str = "failure_modes=(";

// ---------------------------------------------------------------- text

/// The counters as they stand in a message.
pub open spec fn counters_text(counters: FailureModeCounters) -> Seq<char> {
    "(edge:"@ + dec(counters.edge_saturation_hits as nat) + ",model:"@ + dec(
        counters.model_mismatch_hits as nat,
    ) + ",axis_swap:"@ + dec(counters.axis_swap_lag_hits as nat) + ",stale:"@ + dec(
        counters.stale_status_hits as nat,
    ) + ")"@
}

pub fn format_failure_mode_counters(counters: FailureModeCounters) -> (r: String)
    ensures
        r@ == counters_text(counters),
{
    let edge = dec_u64(counters.edge_saturation_hits);
    let model = dec_u64(counters.model_mismatch_hits);
    let axis_swap = dec_u64(counters.axis_swap_lag_hits);
    let stale = dec_u64(counters.stale_status_hits);
    let text = join3("(edge:", edge.as_str(), ",model:");
    let text = join3(text.as_str(), model.as_str(), ",axis_swap:");
    let text = join3(text.as_str(), axis_swap.as_str(), ",stale:");
    join3(text.as_str(), stale.as_str(), ")")
}

/// The last position, not after `upto`, at which `pat` stands in `s`.
pub open spec fn last_find(s: Seq<char>, pat: Seq<char>, upto: int) -> Option<int>
    decreases upto + 1,
{
    if upto < 0 {
        None
    } else if occurs_at(s, pat, upto) {
        Some(upto)
    } else {
        last_find(s, pat, upto - 1)
    }
}

fn find_last(chars: &[char], pat: &[char]) -> (r: Option<usize>)
    ensures
        match r {
            Some(i) => last_find(chars@, pat@, chars.len() as int) == Some(i as int) && i
                + pat.len() <= chars.len(),
            None => last_find(chars@, pat@, chars.len() as int) is None,
        },
{
    let mut i: usize = chars.len();
    loop
        invariant
            i <= chars.len(),
            last_find(chars@, pat@, chars.len() as int) == last_find(chars@, pat@, i as int),
        decreases i,
    {
        if chars_occur_at(chars, pat, i) {
            return Some(i);
        }
        if i == 0 {
            proof {
                assert(last_find(chars@, pat@, -1) is None);
            }
            return None;
        }
        i = i - 1;
    }
}

/// The counters after an entry, `name:number`, was read.
pub open spec fn with_entry(counters: FailureModeCounters, entry: Seq<char>) -> Option<
    FailureModeCounters,
> {
    match index_of(entry, ':', 0) {
        None => None,
        Some(at) => {
            let name = trim(entry.take(at));
            match parse_unsigned(trim(entry.skip(at + 1)), u64::MAX as nat) {
                None => None,
                Some(n) => if name == "edge"@ {
                    Some(FailureModeCounters { edge_saturation_hits: n as u64, ..counters })
                } else if name == "model"@ {
                    Some(FailureModeCounters { model_mismatch_hits: n as u64, ..counters })
                } else if name == "axis_swap"@ {
                    Some(FailureModeCounters { axis_swap_lag_hits: n as u64, ..counters })
                } else if name == "stale"@ {
                    Some(FailureModeCounters { stale_status_hits: n as u64, ..counters })
                } else {
                    None
                },
            }
        },
    }
}

/// The counters after the entries of a list were read: there must be four in all.
pub open spec fn with_entries(
    counters: FailureModeCounters,
    before: int,
    list: Seq<char>,
) -> Option<FailureModeCounters>
    decreases list.len(),
{
    match index_of(list, ',', 0) {
        None => match with_entry(counters, list) {
            None => None,
            Some(last) => if before + 1 == 4 {
                Some(last)
            } else {
                None
            },
        },
        Some(at) => if 0 <= at < list.len() {
            match with_entry(counters, list.take(at)) {
                None => None,
                Some(next) => with_entries(next, before + 1, list.skip(at + 1)),
            }
        } else {
            None
        },
    }
}

/// The counters that a message mentions last.
pub open spec fn counters_in(message: Seq<char>) -> Option<FailureModeCounters> {
    match last_find(message, COUNTERS_START@, message.len() as int) {
        None => None,
        Some(at) => {
            let start = at + COUNTERS_START@.len();
            match index_of(message, ')', start) {
                None => None,
                Some(end) => with_entries(no_failures(), 0, message.subrange(start, end)),
            }
        },
    }
}

fn read_entry(counters: FailureModeCounters, entry: &[char]) -> (r: Option<FailureModeCounters>)
    ensures
        r == with_entry(counters, entry@),
{
    let at: usize = match index_of_char(entry, ':', 0) {
        Some(at) => at,
        None => {
            return None;
        },
    };
    proof {
        assert(entry@.subrange(0, at as int) =~= entry@.take(at as int));
        assert(entry@.subrange(at + 1, entry.len() as int) =~= entry@.skip(at + 1));
    }
    let key = trim_text(slice_text(entry, 0, at).as_str());
    let value = trim_text(slice_text(entry, at + 1, entry.len()).as_str());
    let n: u64 = match parse_u64_text(value.as_str()) {
        Some(n) => n,
        None => {
            return None;
        },
    };
    let mut next = counters;
    if same_text(key.as_str(), "edge") {
        next.edge_saturation_hits = n;
    } else if same_text(key.as_str(), "model") {
        next.model_mismatch_hits = n;
    } else if same_text(key.as_str(), "axis_swap") {
        next.axis_swap_lag_hits = n;
    } else if same_text(key.as_str(), "stale") {
        next.stale_status_hits = n;
    } else {
        return None;
    }
    Some(next)
}

fn read_entries(list: &[char]) -> (r: Option<FailureModeCounters>)
    ensures
        r == with_entries(no_failures(), 0, list@),
{
    let mut counters = FailureModeCounters::default();
    let mut parsed: usize = 0;
    let mut rest: &[char] = list;
    loop
        invariant
            parsed + rest.len() <= list.len(),
            with_entries(no_failures(), 0, list@) == with_entries(
                counters,
                parsed as int,
                rest@,
            ),
        decreases rest.len(),
    {
        match index_of_char(rest, ',', 0) {
            None => {
                return match read_entry(counters, rest) {
                    Some(last) => if parsed == 3 {
                        Some(last)
                    } else {
                        None
                    },
                    None => None,
                };
            },
            Some(at) => {
                let entry = vstd::slice::slice_subrange(rest, 0, at);
                proof {
                    assert(entry@ =~= rest@.take(at as int));
                }
                match read_entry(counters, entry) {
                    Some(next) => {
                        counters = next;
                    },
                    None => {
                        return None;
                    },
                }
                let after = vstd::slice::slice_subrange(rest, at + 1, rest.len());
                proof {
                    assert(after@ =~= rest@.skip(at + 1));
                }
                parsed = parsed + 1;
                rest = after;
            },
        }
    }
}

/// The counters that a message mentions last.
pub fn parse_failure_mode_counters(message: &str) -> (r: Option<FailureModeCounters>)
    ensures
        r == counters_in(message@),
{
    let chars = to_chars(message);
    let pat = to_chars(COUNTERS_START);
    let at: usize = match find_last(chars.as_slice(), pat.as_slice()) {
        Some(at) => at,
        None => {
            return None;
        },
    };
    let start: usize = at + pat.len();
    match index_of_char(chars.as_slice(), ')', start) {
        Some(end) => {
            let list = vstd::slice::slice_subrange(chars.as_slice(), start, end);
            read_entries(list)
        },
        None => None,
    }
}

// ---------------------------------------------------------------- largest and leading

pub open spec fn larger(a: u64, b: u64) -> u64 {
    if a >= b {
        a
    } else {
        b
    }
}

/// The larger of each two counters.
pub open spec fn counters_max(
    left: FailureModeCounters,
    right: FailureModeCounters,
) -> FailureModeCounters {
    FailureModeCounters {
        edge_saturation_hits: larger(left.edge_saturation_hits, right.edge_saturation_hits),
        model_mismatch_hits: larger(left.model_mismatch_hits, right.model_mismatch_hits),
        axis_swap_lag_hits: larger(left.axis_swap_lag_hits, right.axis_swap_lag_hits),
        stale_status_hits: larger(left.stale_status_hits, right.stale_status_hits),
    }
}

fn larger_of(a: u64, b: u64) -> (r: u64)
    ensures
        r == larger(a, b),
{
    if a >= b {
        a
    } else {
        b
    }
}

pub fn max_failure_mode_counters(left: FailureModeCounters, right: FailureModeCounters) -> (r:
    FailureModeCounters)
    ensures
        r == counters_max(left, right),
{
    FailureModeCounters {
        edge_saturation_hits: larger_of(left.edge_saturation_hits, right.edge_saturation_hits),
        model_mismatch_hits: larger_of(left.model_mismatch_hits, right.model_mismatch_hits),
        axis_swap_lag_hits: larger_of(left.axis_swap_lag_hits, right.axis_swap_lag_hits),
        stale_status_hits: larger_of(left.stale_status_hits, right.stale_status_hits),
    }
}

/// The first three of four numbers are smaller than the last.
pub open spec fn leads(n: u64, a: u64, b: u64, c: u64) -> bool {
    n > a && n > b && n > c
}

/// The name of the counter that is larger than all others, `tie` where none is and `none`
/// where all are zero.
pub open spec fn dominant_label(counters: FailureModeCounters) -> Seq<char> {
    let edge = counters.edge_saturation_hits;
    let model = counters.model_mismatch_hits;
    let axis_swap = counters.axis_swap_lag_hits;
    let stale = counters.stale_status_hits;
    if counters == no_failures() {
        "none"@
    } else if leads(edge, model, axis_swap, stale) {
        "edge"@
    } else if leads(model, edge, axis_swap, stale) {
        "model"@
    } else if leads(axis_swap, edge, model, stale) {
        "axis_swap"@
    } else if leads(stale, edge, model, axis_swap) {
        "stale"@
    } else {
        "tie"@
    }
}

pub fn dominant_failure_mode_label(counters: FailureModeCounters) -> (r: &'static str)
    ensures
        r@ == dominant_label(counters),
{
    let edge: u64 = counters.edge_saturation_hits;
    let model: u64 = counters.model_mismatch_hits;
    let axis_swap: u64 = counters.axis_swap_lag_hits;
    let stale: u64 = counters.stale_status_hits;
    let max: u64 = larger_of(larger_of(edge, model), larger_of(axis_swap, stale));
    if max == 0 {
        return "none";
    }
    let mut leaders: u8 = 0;
    if edge == max {
        leaders = leaders + 1;
    }
    if model == max {
        leaders = leaders + 1;
    }
    if axis_swap == max {
        leaders = leaders + 1;
    }
    if stale == max {
        leaders = leaders + 1;
    }
    if leaders > 1 {
        return "tie";
    }
    if edge == max {
        "edge"
    } else if model == max {
        "model"
    } else if axis_swap == max {
        "axis_swap"
    } else {
        "stale"
    }
}

// ---------------------------------------------------------------- laws

/// Taking the larger counters is commutative, associative and idempotent, and never takes
/// less than either side has.
pub proof fn law_counters_max(a: FailureModeCounters, b: FailureModeCounters, c: FailureModeCounters)
    ensures
        counters_max(a, b) == counters_max(b, a),
        counters_max(a, a) == a,
        counters_max(counters_max(a, b), c) == counters_max(a, counters_max(b, c)),
        counters_max(a, no_failures()) == a,
        counters_max(a, b).edge_saturation_hits >= a.edge_saturation_hits,
        counters_max(a, b).model_mismatch_hits >= a.model_mismatch_hits,
        counters_max(a, b).axis_swap_lag_hits >= a.axis_swap_lag_hits,
        counters_max(a, b).stale_status_hits >= a.stale_status_hits,
{
}

/// Counters that are written into a message are read back from it, where the text after
/// them does not hold their beginning.
pub proof fn law_counters_read_back(
    before: Seq<char>,
    counters: FailureModeCounters,
    after: Seq<char>,
)
    requires
        forall|i: int| !occurs_at(after, COUNTERS_START@, i),
    ensures
        counters_in(before + "failure_modes="@ + counters_text(counters) + after) == Some(counters),
{
    let message = before + "failure_modes="@ + counters_text(counters) + after;
    let at = before.len() as int;
    reveal_strlit("failure_modes=(");
    reveal_strlit("failure_modes=");
    reveal_strlit("(edge:");
    reveal_strlit("edge:");
    reveal_strlit("model:");
    reveal_strlit("axis_swap:");
    reveal_strlit("stale:");
    reveal_strlit(",model:");
    reveal_strlit(",axis_swap:");
    reveal_strlit(",stale:");
    reveal_strlit(")");
    let a = dec(counters.edge_saturation_hits as nat);
    let b = dec(counters.model_mismatch_hits as nat);
    let c = dec(counters.axis_swap_lag_hits as nat);
    let d = dec(counters.stale_status_hits as nat);
    let comma = seq![','];
    let e1 = "edge:"@ + a;
    let e2 = "model:"@ + b;
    let e3 = "axis_swap:"@ + c;
    let e4 = "stale:"@ + d;
    let list3 = e3 + comma + e4;
    let list2 = e2 + comma + list3;
    let list1 = e1 + comma + list2;
    let start = at + 15;
    let end = start + list1.len();
    assert(counters_text(counters) =~= seq!['('] + list1 + seq![')']);
    assert(message =~= before + COUNTERS_START@ + list1 + seq![')'] + after);
    assert(message.subrange(at, at + 15) =~= COUNTERS_START@);
    assert(occurs_at(message, COUNTERS_START@, at));
    law_dec_reads_back(counters.edge_saturation_hits as nat);
    law_dec_reads_back(counters.model_mismatch_hits as nat);
    law_dec_reads_back(counters.axis_swap_lag_hits as nat);
    law_dec_reads_back(counters.stale_status_hits as nat);
    lemma_plain_entry(e1, "edge:"@, a);
    lemma_plain_entry(e2, "model:"@, b);
    lemma_plain_entry(e3, "axis_swap:"@, c);
    lemma_plain_entry(e4, "stale:"@, d);
    assert forall|i: int| 0 <= i < list1.len() implies list1[i] != ')' && list1[i] != 'f' by {
        let n1 = e1.len() as int;
        let n2 = e2.len() as int;
        let n3 = e3.len() as int;
        if i < n1 {
            assert(list1[i] == e1[i]);
        } else if i == n1 {
            assert(list1[i] == ',');
        } else if i < n1 + 1 + n2 {
            assert(list1[i] == e2[i - n1 - 1]);
        } else if i == n1 + 1 + n2 {
            assert(list1[i] == ',');
        } else if i < n1 + n2 + n3 + 2 {
            assert(list1[i] == e3[i - n1 - n2 - 2]);
        } else if i == n1 + n2 + n3 + 2 {
            assert(list1[i] == ',');
        } else {
            assert(list1[i] == e4[i - n1 - n2 - n3 - 3]);
        }
    }
    assert(message.subrange(start, end) =~= list1);
    assert(message[end] == ')');
    lemma_last_start(before, list1, after, message);
    lemma_first_index(message, ')', start, end);
    lemma_entry_reads_back(no_failures(), "edge"@, counters.edge_saturation_hits);
    let c1 = FailureModeCounters {
        edge_saturation_hits: counters.edge_saturation_hits,
        ..no_failures()
    };
    let c2 = FailureModeCounters { model_mismatch_hits: counters.model_mismatch_hits, ..c1 };
    let c3 = FailureModeCounters { axis_swap_lag_hits: counters.axis_swap_lag_hits, ..c2 };
    lemma_entry_reads_back(c1, "model"@, counters.model_mismatch_hits);
    lemma_entry_reads_back(c2, "axis_swap"@, counters.axis_swap_lag_hits);
    lemma_entry_reads_back(c3, "stale"@, counters.stale_status_hits);
    reveal_strlit("edge");
    reveal_strlit("model");
    reveal_strlit("axis_swap");
    reveal_strlit("stale");
    assert("edge"@ + seq![':'] + a =~= e1);
    assert("model"@ + seq![':'] + b =~= e2);
    assert("axis_swap"@ + seq![':'] + c =~= e3);
    assert("stale"@ + seq![':'] + d =~= e4);
    lemma_entries_step(no_failures(), 0, e1, list2);
    lemma_entries_step(c1, 1, e2, list3);
    lemma_entries_step(c2, 2, e3, e4);
    lemma_no_index(e4, ',');
}

/// The beginning of the counters begins with an `f` and holds no other.
proof fn lemma_start_holds_one_f(k: int)
    requires
        0 < k < 15,
    ensures
        COUNTERS_START@.len() == 15,
        COUNTERS_START@[0] == 'f',
        COUNTERS_START@[k] != 'f',
{
    reveal_strlit("failure_modes=(");
    assert(k == 1 || k == 2 || k == 3 || k == 4 || k == 5 || k == 6 || k == 7 || k == 8 || k == 9
        || k == 10 || k == 11 || k == 12 || k == 13 || k == 14);
}

proof fn lemma_no_later_start(
    before: Seq<char>,
    list: Seq<char>,
    after: Seq<char>,
    message: Seq<char>,
    i: int,
)
    requires
        message == before + COUNTERS_START@ + list + seq![')'] + after,
        forall|k: int| 0 <= k < list.len() ==> list[k] != 'f',
        i > before.len(),
        !occurs_at(after, COUNTERS_START@, i - before.len() - list.len() - 16),
    ensures
        !occurs_at(message, COUNTERS_START@, i),
{
    lemma_start_holds_one_f(1);
    let start = before.len() + 15;
    let end = start + list.len();
    if occurs_at(message, COUNTERS_START@, i) {
        let found = message.subrange(i, i + 15);
        assert(found == COUNTERS_START@);
        assert(found[0] == message[i]);
        if i < start {
            lemma_start_holds_one_f(i - before.len());
            assert(message[i] == COUNTERS_START@[i - before.len()]);
        } else if i < end {
            assert(message[i] == list[i - start]);
        } else if i == end {
            assert(message[i] == ')');
        } else {
            let k = i - end - 1;
            assert(after.subrange(k, k + 15) =~= found);
        }
    }
}

/// The beginning of the counters is found where they are, if nothing after them holds it.
proof fn lemma_last_start(before: Seq<char>, list: Seq<char>, after: Seq<char>, message: Seq<char>)
    requires
        message == before + COUNTERS_START@ + list + seq![')'] + after,
        forall|i: int| 0 <= i < list.len() ==> list[i] != 'f',
        forall|i: int| !occurs_at(after, COUNTERS_START@, i),
    ensures
        last_find(message, COUNTERS_START@, message.len() as int) == Some(before.len() as int),
{
    lemma_start_holds_one_f(1);
    let at = before.len() as int;
    assert(message.subrange(at, at + 15) =~= COUNTERS_START@);
    assert forall|i: int| i > at implies !occurs_at(message, COUNTERS_START@, i) by {
        lemma_no_later_start(before, list, after, message, i);
    }
    lemma_last_find(message, COUNTERS_START@, message.len() as int, at);
}

/// An entry whose name and number hold no comma, bracket or `f` holds none of them.
proof fn lemma_plain_entry(entry: Seq<char>, name: Seq<char>, digits: Seq<char>)
    requires
        entry == name + digits,
        all_digits(digits),
        forall|i: int| 0 <= i < name.len() ==> name[i] != ',' && name[i] != ')' && name[i] != 'f',
    ensures
        forall|i: int|
            0 <= i < entry.len() ==> entry[i] != ',' && entry[i] != ')' && entry[i] != 'f',
{
    assert forall|i: int| 0 <= i < entry.len() implies entry[i] != ',' && entry[i] != ')'
        && entry[i] != 'f' by {
        if i < name.len() {
            assert(entry[i] == name[i]);
        } else {
            assert(entry[i] == digits[i - name.len()]);
            assert(is_digit(digits[i - name.len()]));
        }
    }
}

proof fn lemma_last_find(s: Seq<char>, pat: Seq<char>, upto: int, at: int)
    requires
        0 <= at <= upto,
        occurs_at(s, pat, at),
        forall|i: int| i > at ==> !occurs_at(s, pat, i),
    ensures
        last_find(s, pat, upto) == Some(at),
    decreases upto - at,
{
    if upto > at {
        lemma_last_find(s, pat, upto - 1, at);
    }
}

proof fn lemma_first_index(s: Seq<char>, c: char, from: int, at: int)
    requires
        0 <= from <= at < s.len(),
        s[at] == c,
        forall|i: int| from <= i < at ==> s[i] != c,
    ensures
        index_of(s, c, from) == Some(at),
    decreases at - from,
{
    if from < at {
        lemma_first_index(s, c, from + 1, at);
    }
}

proof fn lemma_no_index(s: Seq<char>, c: char)
    requires
        forall|i: int| 0 <= i < s.len() ==> s[i] != c,
    ensures
        index_of(s, c, 0) is None,
{
    lemma_index_of(s, c, 0);
}

/// Reading a list reads its first entry and then the rest.
proof fn lemma_entries_step(
    counters: FailureModeCounters,
    before: int,
    entry: Seq<char>,
    rest: Seq<char>,
)
    requires
        forall|i: int| 0 <= i < entry.len() ==> entry[i] != ',',
    ensures
        with_entries(counters, before, entry + seq![','] + rest) == match with_entry(
            counters,
            entry,
        ) {
            None => None,
            Some(next) => with_entries(next, before + 1, rest),
        },
{
    let list = entry + seq![','] + rest;
    assert(list[entry.len() as int] == ',');
    assert forall|i: int| 0 <= i < entry.len() implies list[i] != ',' by {
        assert(list[i] == entry[i]);
    }
    lemma_first_index(list, ',', 0, entry.len() as int);
    assert(list.take(entry.len() as int) =~= entry);
    assert(list.skip(entry.len() as int + 1) =~= rest);
}

/// A text whose ends are no space is trimmed already.
proof fn lemma_trimmed(s: Seq<char>)
    requires
        s.len() > 0,
        !is_space(s[0]),
        !is_space(s.last()),
    ensures
        trim(s) == s,
{
}

/// An entry is read back.
proof fn lemma_entry_reads_back(counters: FailureModeCounters, name: Seq<char>, n: u64)
    requires
        name == "edge"@ || name == "model"@ || name == "axis_swap"@ || name == "stale"@,
    ensures
        with_entry(counters, name + seq![':'] + dec(n as nat)) == Some(
            if name == "edge"@ {
                FailureModeCounters { edge_saturation_hits: n, ..counters }
            } else if name == "model"@ {
                FailureModeCounters { model_mismatch_hits: n, ..counters }
            } else if name == "axis_swap"@ {
                FailureModeCounters { axis_swap_lag_hits: n, ..counters }
            } else {
                FailureModeCounters { stale_status_hits: n, ..counters }
            },
        ),
{
    reveal_strlit("edge");
    reveal_strlit("model");
    reveal_strlit("axis_swap");
    reveal_strlit("stale");
    let digits = dec(n as nat);
    let entry = name + seq![':'] + digits;
    let at = name.len() as int;
    law_dec_reads_back(n as nat);
    assert(entry[at] == ':');
    assert forall|i: int| 0 <= i < at implies entry[i] != ':' by {
        assert(entry[i] == name[i]);
    }
    lemma_first_index(entry, ':', 0, at);
    assert(entry.take(at) =~= name);
    assert(entry.skip(at + 1) =~= digits);
    lemma_trimmed(name);
    assert(is_digit(digits[0]) && is_digit(digits.last()));
    lemma_trimmed(digits);
}

} // verus!
