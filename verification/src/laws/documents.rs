//! Documents of the camera: tags, what they hold, and their attributes.
use crate::json::same_name;
use crate::reolink::onvif::{fault_text, first_filled};
use crate::reolink::xml::{
    attribute_value, first_word, inner_of, local_part, next_tag, tag_attribute, tag_content,
    tag_named, tag_values, text_of, values_between, TagModel,
};
use crate::text::{
    contains, find_from, index_of, is_space, last_index_of, lemma_find_from, lemma_index_of,
    occurs_at, trim, trim_end, trim_start,
};
use vstd::prelude::*;

verus! {

// ---------------------------------------------------------------- finding

/// What is found is the first occurrence.
pub proof fn law_first_occurrence_is_found(s: Seq<char>, pat: Seq<char>, from: int, k: int)
    requires
        0 <= from <= k,
        k + pat.len() <= s.len(),
        forall|i: int| 0 <= i < pat.len() ==> s[k + i] == #[trigger] pat[i],
        forall|j: int| from <= j < k ==> !occurs_at(s, pat, j),
    ensures
        find_from(s, pat, from) == Some(k),
        contains(s, pat),
{
    assert(s.subrange(k, k + pat.len()) =~= pat);
    assert(occurs_at(s, pat, k));
    lemma_find_from(s, pat, from);
}

/// The first such letter is found, and from the end the last one.
pub proof fn law_letters_are_found(s: Seq<char>, c: char, from: int, k: int)
    requires
        0 <= from <= k < s.len(),
        s[k] == c,
    ensures
        (forall|j: int| from <= j < k ==> s[j] != c) ==> index_of(s, c, from) == Some(k),
        (forall|j: int| k < j < s.len() ==> s[j] != c) ==> last_index_of(s, c) == Some(k),
    decreases s.len(),
{
    lemma_index_of(s, c, from);
    if s.last() != c && k < s.len() - 1 {
        if forall|j: int| k < j < s.len() ==> s[j] != c {
            law_letters_are_found(s.drop_last(), c, from, k);
        }
    }
}

/// A text that begins and ends with something else than white space is not trimmed, and white
/// space around it is.
pub proof fn law_white_space_is_trimmed(before: Seq<char>, s: Seq<char>, after: Seq<char>)
    requires
        s.len() > 0,
        !is_space(s[0]),
        !is_space(s.last()),
        forall|i: int| 0 <= i < before.len() ==> is_space(#[trigger] before[i]),
        forall|i: int| 0 <= i < after.len() ==> is_space(#[trigger] after[i]),
    ensures
        trim(before + s + after) == s,
{
    lemma_start_is_trimmed(before, s + after);
    assert(before + s + after =~= before + (s + after));
    lemma_end_is_trimmed(s, after);
}

proof fn lemma_start_is_trimmed(before: Seq<char>, s: Seq<char>)
    requires
        s.len() > 0,
        !is_space(s[0]),
        forall|i: int| 0 <= i < before.len() ==> is_space(#[trigger] before[i]),
    ensures
        trim_start(before + s) == s,
    decreases before.len(),
{
    if before.len() > 0 {
        assert((before + s)[0] == before[0]);
        assert((before + s).drop_first() =~= before.drop_first() + s);
        lemma_start_is_trimmed(before.drop_first(), s);
    } else {
        assert(before + s =~= s);
    }
}

proof fn lemma_end_is_trimmed(s: Seq<char>, after: Seq<char>)
    requires
        s.len() > 0,
        !is_space(s.last()),
        forall|i: int| 0 <= i < after.len() ==> is_space(#[trigger] after[i]),
    ensures
        trim_end(s + after) == s,
    decreases after.len(),
{
    if after.len() > 0 {
        assert((s + after).last() == after.last());
        assert((s + after).drop_last() =~= s + after.drop_last());
        lemma_end_is_trimmed(s, after.drop_last());
    } else {
        assert(s + after =~= s);
    }
}

// ---------------------------------------------------------------- attributes

/// An attribute is what stands between the quotes behind its name, in quotes of either kind.
pub proof fn law_attributes_are_read(
    before: Seq<char>,
    name: Seq<char>,
    quote: char,
    value: Seq<char>,
    after: Seq<char>,
)
    requires
        quote == '"' || quote == '\'',
        forall|i: int| 0 <= i < value.len() ==> #[trigger] value[i] != quote,
        forall|j: int|
            0 <= j < before.len() ==> !occurs_at(
                before + name + "="@ + seq![quote] + value + seq![quote] + after,
                name + "="@,
                j,
            ),
    ensures
        attribute_value(
            before + name + "="@ + seq![quote] + value + seq![quote] + after,
            name,
        ) == Some(value),
{
    let body = before + name + "="@ + seq![quote] + value + seq![quote] + after;
    let needle = name + "="@;
    let k = before.len() as int;
    assert forall|i: int| 0 <= i < needle.len() implies body[k + i] == #[trigger] needle[i] by {}
    law_first_occurrence_is_found(body, needle, 0, k);
    let at = k + needle.len();
    assert(body[at] == quote);
    let end = at + 1 + value.len();
    assert(body[end] == quote);
    assert forall|j: int| at + 1 <= j < end implies body[j] != quote by {
        assert(body[j] == value[j - at - 1]);
    }
    law_letters_are_found(body, quote, at + 1, end);
    assert(body.subrange(at + 1, end) =~= value);
}

// ---------------------------------------------------------------- tags

/// The first tag of a text, by what stands between its brackets.
pub proof fn law_first_tag_is_found(before: Seq<char>, body: Seq<char>, after: Seq<char>)
    requires
        forall|i: int| 0 <= i < before.len() ==> #[trigger] before[i] != '<',
        body.len() > 0,
        forall|i: int| 0 <= i < body.len() ==> #[trigger] body[i] != '>',
        !is_space(body[0]) && !is_space(body.last()),
        body[0] != '/' && body[0] != '?' && body[0] != '!',
        body.last() != '/',
    ensures
        next_tag(before + "<"@ + body + ">"@ + after, 0) == Some(
            TagModel {
                name: first_word(body),
                body,
                content_start: (before.len() + body.len() + 2) as int,
                self_closing: false,
            },
        ),
{
    reveal_strlit("<");
    reveal_strlit(">");
    let xml = before + "<"@ + body + ">"@ + after;
    let start = before.len() as int;
    let end = start + 1 + body.len();
    assert(xml[start] == '<');
    assert forall|j: int| 0 <= j < start implies xml[j] != '<' by {
        assert(xml[j] == before[j]);
    }
    law_letters_are_found(xml, '<', 0, start);
    assert(xml[end] == '>');
    assert forall|j: int| start <= j < end implies xml[j] != '>' by {
        if j > start {
            assert(xml[j] == body[j - start - 1]);
        }
    }
    law_letters_are_found(xml, '>', start, end);
    assert(xml.subrange(start + 1, end) =~= body);
    law_white_space_is_trimmed(Seq::empty(), body, Seq::empty());
    assert(Seq::<char>::empty() + body + Seq::<char>::empty() =~= body);
}

/// The name of a tag is its first word, and its own name is what stands behind the last colon.
pub proof fn law_names_of_tags(space: Seq<char>, name: Seq<char>, rest: Seq<char>)
    requires
        forall|i: int| 0 <= i < name.len() ==> !is_space(#[trigger] name[i]) && name[i] != ':',
        forall|i: int| 0 <= i < space.len() ==> !is_space(#[trigger] space[i]),
    ensures
        first_word(name) == name,
        first_word(name + " "@ + rest) == name,
        local_part(name) == name,
        local_part(space + ":"@ + name) == name,
{
    reveal_strlit(" ");
    reveal_strlit(":");
    lemma_first_word(name, Seq::empty());
    assert(name + Seq::<char>::empty() =~= name);
    lemma_first_word(name, " "@ + rest);
    assert(name + (" "@ + rest) =~= name + " "@ + rest);
    lemma_no_letter(name, ':');
    let whole = space + ":"@ + name;
    law_letters_are_found(whole, ':', 0, space.len() as int);
    assert(whole.skip(space.len() as int + 1) =~= name);
}

proof fn lemma_no_letter(s: Seq<char>, c: char)
    requires
        forall|i: int| 0 <= i < s.len() ==> #[trigger] s[i] != c,
    ensures
        last_index_of(s, c) is None,
    decreases s.len(),
{
    if s.len() > 0 {
        lemma_no_letter(s.drop_last(), c);
    }
}

proof fn lemma_first_word(name: Seq<char>, rest: Seq<char>)
    requires
        forall|i: int| 0 <= i < name.len() ==> !is_space(#[trigger] name[i]),
        rest.len() > 0 ==> is_space(rest[0]),
    ensures
        first_word(name + rest) == name,
    decreases name.len(),
{
    if name.len() > 0 {
        assert((name + rest)[0] == name[0]);
        assert((name + rest).drop_first() =~= name.drop_first() + rest);
        lemma_first_word(name.drop_first(), rest);
        assert(seq![name[0]] + name.drop_first() =~= name);
    } else {
        assert(name + rest =~= rest);
    }
}

/// What a tag holds stands between it and the next end of a tag of the same name.
pub proof fn law_contents_are_read(xml: Seq<char>, tag: TagModel, end: int)
    requires
        !tag.self_closing,
        0 <= tag.content_start <= end,
        occurs_at(xml, "</"@ + tag.name + ">"@, end),
        forall|j: int|
            tag.content_start <= j < end ==> !occurs_at(xml, "</"@ + tag.name + ">"@, j),
    ensures
        tag_content(xml, tag) == Some(xml.subrange(tag.content_start, end)),
{
    lemma_find_from(xml, "</"@ + tag.name + ">"@, tag.content_start);
}

/// A tag is looked for by its own name, whatever its capitals; others before it are passed
/// over, and what it holds and says is read from it.
pub proof fn law_tags_are_found_by_name(xml: Seq<char>, target: Seq<char>, from: int)
    requires
        next_tag(xml, from) is Some,
        from < next_tag(xml, from)->0.content_start <= xml.len(),
    ensures
        same_name(local_part(next_tag(xml, from)->0.name), target) ==> tag_named(xml, target, from)
            == next_tag(xml, from),
        !same_name(local_part(next_tag(xml, from)->0.name), target) ==> tag_named(xml, target, from)
            == tag_named(xml, target, next_tag(xml, from)->0.content_start),
{
}

/// What is read of a tag: its attribute, what it holds, and that as a text.
pub proof fn law_tags_are_read(xml: Seq<char>, target: Seq<char>, name: Seq<char>, inner: Seq<char>)
    requires
        tag_named(xml, target, 0) is Some,
        tag_content(xml, tag_named(xml, target, 0)->0) == Some(inner),
    ensures
        tag_attribute(xml, target, name) == attribute_value(
            tag_named(xml, target, 0)->0.body,
            name,
        ),
        inner_of(xml, target) == Some(inner),
        trim(inner).len() > 0 ==> text_of(xml, target) == Some(trim(inner)),
        trim(inner).len() == 0 ==> text_of(xml, target) is None,
{
}

/// The values of plain tags are what stands between each and its end, in their order.
pub proof fn law_values_are_read(
    before: Seq<char>,
    tag: Seq<char>,
    value: Seq<char>,
    after: Seq<char>,
)
    requires
        forall|j: int|
            0 <= j < before.len() ==> !occurs_at(
                before + ("<"@ + tag + ">"@) + value + ("</"@ + tag + ">"@) + after,
                "<"@ + tag + ">"@,
                j,
            ),
        forall|j: int|
            before.len() + tag.len() + 2 <= j < before.len() + tag.len() + 2 + value.len()
                ==> !occurs_at(
                before + ("<"@ + tag + ">"@) + value + ("</"@ + tag + ">"@) + after,
                "</"@ + tag + ">"@,
                j,
            ),
    ensures
        ({
            let xml = before + ("<"@ + tag + ">"@) + value + ("</"@ + tag + ">"@) + after;
            tag_values(xml, tag).len() > 0 && tag_values(xml, tag)[0] == trim(value)
        }),
{
    reveal_strlit("<");
    reveal_strlit("</");
    reveal_strlit(">");
    let open = "<"@ + tag + ">"@;
    let close = "</"@ + tag + ">"@;
    let xml = before + open + value + close + after;
    let k = before.len() as int;
    assert forall|i: int| 0 <= i < open.len() implies xml[k + i] == #[trigger] open[i] by {}
    law_first_occurrence_is_found(xml, open, 0, k);
    let end = k + open.len() + value.len();
    assert forall|i: int| 0 <= i < close.len() implies xml[end + i] == #[trigger] close[i] by {}
    law_first_occurrence_is_found(xml, close, k + open.len(), end);
    assert(xml.subrange(k + open.len(), end) =~= value);
    let rest = values_between(xml, open, close, end + close.len());
    assert((seq![trim(value)] + rest)[0] == trim(value));
}

// ---------------------------------------------------------------- faults

/// A fault is told by the first text that its document has for it, by the rank of the tags.
pub proof fn law_faults_are_told(xml: Seq<char>, text: Seq<char>)
    requires
        contains(xml, ":Fault"@) || contains(xml, "<Fault>"@),
    ensures
        first_filled(tag_values(xml, "s:Text"@)) == Some(text) ==> fault_text(xml) == Some(text),
        first_filled(tag_values(xml, "s:Text"@)) is None && first_filled(
            tag_values(xml, "soap:Text"@),
        ) == Some(text) ==> fault_text(xml) == Some(text),
        first_filled(tag_values(xml, "s:Text"@)) is None && first_filled(
            tag_values(xml, "soap:Text"@),
        ) is None && first_filled(tag_values(xml, "faultstring"@)) == Some(text) ==> fault_text(xml)
            == Some(text),
        fault_text(xml) is Some,
{
}

/// The first of several texts that has something in it.
pub proof fn law_first_filled_text(values: Seq<Seq<char>>, k: int)
    requires
        0 <= k < values.len(),
        trim(values[k]).len() > 0,
        forall|i: int| 0 <= i < k ==> trim(#[trigger] values[i]).len() == 0,
    ensures
        first_filled(values) == Some(trim(values[k])),
    decreases k,
{
    if k > 0 {
        let rest = values.drop_first();
        assert(trim(values[0]).len() == 0);
        assert forall|i: int| 0 <= i < k - 1 implies trim(#[trigger] rest[i]).len() == 0 by {
            assert(rest[i] == values[i + 1]);
        }
        law_first_filled_text(rest, k - 1);
    }
}

} // verus!
