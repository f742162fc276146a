//! The little of XML that ONVIF messages need: tags, their attributes and what is between
//! them, found by scanning.
use crate::json::{is_same_name, option_model, same_name};
use crate::text::{
    char_is_space, find_chars, find_from, from_chars, index_of, index_of_char, is_space, join2,
    join3, last_index_of, last_index_of_char, slice_text, to_chars, trim, trim_bounds, trim_end,
    trim_text,
};
use vstd::prelude::*;

verus! {

// ---------------------------------------------------------------- tags

/// An opening tag: its name, its text, where what it holds begins, and whether it holds
/// nothing.
pub ghost struct TagModel {
    pub name: Seq<char>,
    pub body: Seq<char>,
    pub content_start: int,
    pub self_closing: bool,
}

pub struct OpenTag {
    pub name: String,
    pub body: String,
    pub content_start: usize,
    pub self_closing: bool,
}

impl View for OpenTag {
    type V = TagModel;

    open spec fn view(&self) -> TagModel {
        TagModel {
            name: self.name@,
            body: self.body@,
            content_start: self.content_start as int,
            self_closing: self.self_closing,
        }
    }
}

/// The text up to its first white space.
pub open spec fn first_word(s: Seq<char>) -> Seq<char>
    decreases s.len(),
{
    if s.len() == 0 || is_space(s[0]) {
        Seq::empty()
    } else {
        seq![s[0]] + first_word(s.drop_first())
    }
}

/// What stands between angle brackets opens no element: nothing, the end of one, a
/// declaration or a comment.
pub open spec fn opens_nothing(body: Seq<char>) -> bool {
    body.len() == 0 || body[0] == '/' || body[0] == '?' || body[0] == '!'
}

/// The text of a tag without the slash that closes it.
pub open spec fn tag_body(body: Seq<char>) -> Seq<char> {
    if body.last() == '/' {
        trim_end(body.drop_last())
    } else {
        body
    }
}

/// The first opening tag at or after a position.
pub open spec fn next_tag(xml: Seq<char>, from: int) -> Option<TagModel>
    decreases xml.len() - from,
{
    match index_of(xml, '<', from) {
        None => None,
        Some(start) => match index_of(xml, '>', start) {
            None => None,
            Some(end) => if from <= start && start < end < xml.len() {
                let body = trim(xml.subrange(start + 1, end));
                if opens_nothing(body) {
                    next_tag(xml, end + 1)
                } else {
                    Some(
                        TagModel {
                            name: first_word(tag_body(body)),
                            body: tag_body(body),
                            content_start: end + 1,
                            self_closing: body.last() == '/',
                        },
                    )
                }
            } else {
                None
            },
        },
    }
}

fn first_word_len(chars: &[char]) -> (n: usize)
    ensures
        n <= chars.len(),
        first_word(chars@) == chars@.take(n as int),
{
    let mut i: usize = 0;
    proof {
        assert(chars@.skip(0) =~= chars@);
        assert(chars@.take(0) + first_word(chars@) =~= first_word(chars@));
    }
    while i < chars.len() && !char_is_space(chars[i])
        invariant
            i <= chars.len(),
            first_word(chars@) == chars@.take(i as int) + first_word(chars@.skip(i as int)),
        decreases chars.len() - i,
    {
        proof {
            let rest = chars@.skip(i as int);
            assert(rest.drop_first() =~= chars@.skip(i + 1));
            assert(chars@.take(i as int) + (seq![rest[0]] + first_word(rest.drop_first()))
                =~= chars@.take(i + 1) + first_word(chars@.skip(i + 1)));
        }
        i = i + 1;
    }
    proof {
        assert(first_word(chars@.skip(i as int)) =~= Seq::<char>::empty());
        assert(chars@.take(i as int) + Seq::<char>::empty() =~= chars@.take(i as int));
    }
    i
}

/// Where `chars` ends without its trailing white space.
fn end_without_space(chars: &[char]) -> (n: usize)
    ensures
        n <= chars.len(),
        trim_end(chars@) == chars@.take(n as int),
{
    let mut end: usize = chars.len();
    proof {
        assert(chars@.take(end as int) =~= chars@);
    }
    while end > 0 && char_is_space(chars[end - 1])
        invariant
            end <= chars.len(),
            trim_end(chars@) == trim_end(chars@.take(end as int)),
        decreases end,
    {
        proof {
            assert(chars@.take(end as int).last() == chars@[end - 1]);
            assert(chars@.take(end as int).drop_last() =~= chars@.take(end - 1));
        }
        end = end - 1;
    }
    proof {
        if end > 0 {
            assert(chars@.take(end as int).last() == chars@[end - 1]);
        }
    }
    end
}

/// A tag that is read from what stands between its angle brackets.
fn tag_of(body: &[char], content_start: usize) -> (r: OpenTag)
    requires
        !opens_nothing(body@),
    ensures
        r@ == (TagModel {
            name: first_word(tag_body(body@)),
            body: tag_body(body@),
            content_start: content_start as int,
            self_closing: body@.last() == '/',
        }),
{
    let self_closing = body[body.len() - 1] == '/';
    let end: usize = if self_closing {
        let inner = vstd::slice::slice_subrange(body, 0, body.len() - 1);
        proof {
            assert(inner@ =~= body@.drop_last());
        }
        let n: usize = end_without_space(inner);
        proof {
            assert(inner@.take(n as int) =~= body@.subrange(0, n as int));
        }
        n
    } else {
        proof {
            assert(body@.subrange(0, body.len() as int) =~= body@);
        }
        body.len()
    };
    let kept = vstd::slice::slice_subrange(body, 0, end);
    proof {
        assert(kept@ =~= tag_body(body@));
    }
    let n: usize = first_word_len(kept);
    proof {
        assert(kept@.subrange(0, n as int) =~= kept@.take(n as int));
    }
    OpenTag {
        name: slice_text(kept, 0, n),
        body: from_chars(kept),
        content_start,
        self_closing,
    }
}

/// The first opening tag at or after a position.
pub fn find_next_open_tag(xml: &[char], from: usize) -> (r: Option<OpenTag>)
    ensures
        option_model(r) == next_tag(xml@, from as int),
        r matches Some(tag) ==> from < tag.content_start <= xml.len(),
{
    let mut at: usize = from;
    loop
        invariant
            from <= at,
            next_tag(xml@, from as int) == next_tag(xml@, at as int),
        decreases xml.len() - at,
    {
        let start: usize = match index_of_char(xml, '<', at) {
            Some(start) => start,
            None => {
                return None;
            },
        };
        let end: usize = match index_of_char(xml, '>', start) {
            Some(end) => end,
            None => {
                return None;
            },
        };
        let inside = vstd::slice::slice_subrange(xml, start + 1, end);
        let (low, high) = trim_bounds(inside);
        let body = vstd::slice::slice_subrange(inside, low, high);
        proof {
            assert(body@ == trim(xml@.subrange(start + 1, end as int)));
        }
        let skip = body.len() == 0 || body[0] == '/' || body[0] == '?' || body[0] == '!';
        if !skip {
            return Some(tag_of(body, end + 1));
        }
        at = end + 1;
    }
}

/// The name of a tag without its namespace.
pub open spec fn local_part(name: Seq<char>) -> Seq<char> {
    match last_index_of(name, ':') {
        Some(i) => name.skip(i + 1),
        None => name,
    }
}

/// The name of a tag without its namespace.
pub fn local_name(name: &str) -> (r: String)
    ensures
        r@ == local_part(name@),
{
    let chars = to_chars(name);
    match last_index_of_char(chars.as_slice(), ':') {
        Some(i) => {
            proof {
                assert(chars@.subrange(i + 1, chars.len() as int) =~= name@.skip(i + 1));
            }
            slice_text(chars.as_slice(), i + 1, chars.len())
        },
        None => name.to_owned(),
    }
}

/// The first tag at or after a position with that name, whatever its namespace and capitals.
pub open spec fn tag_named(xml: Seq<char>, target: Seq<char>, from: int) -> Option<TagModel>
    decreases xml.len() - from,
{
    match next_tag(xml, from) {
        None => None,
        Some(tag) => if same_name(local_part(tag.name), target) {
            Some(tag)
        } else if from < tag.content_start <= xml.len() {
            tag_named(xml, target, tag.content_start)
        } else {
            None
        },
    }
}

/// The first tag with that name, whatever its namespace and capitals.
fn find_tag(xml: &[char], target: &str) -> (r: Option<OpenTag>)
    ensures
        option_model(r) == tag_named(xml@, target@, 0),
        r matches Some(tag) ==> tag.content_start <= xml.len(),
{
    let mut at: usize = 0;
    loop
        invariant
            at <= xml.len(),
            tag_named(xml@, target@, 0) == tag_named(xml@, target@, at as int),
        decreases xml.len() - at,
    {
        match find_next_open_tag(xml, at) {
            None => {
                return None;
            },
            Some(tag) => {
                if is_same_name(local_name(tag.name.as_str()).as_str(), target) {
                    return Some(tag);
                }
                at = tag.content_start;
            },
        }
    }
}

/// What a tag holds: nothing where it closes itself, else what stands before its end.
pub open spec fn tag_content(xml: Seq<char>, tag: TagModel) -> Option<Seq<char>> {
    if tag.self_closing {
        Some(Seq::empty())
    } else {
        match find_from(xml, "</"@ + tag.name + ">"@, tag.content_start) {
            Some(end) => Some(xml.subrange(tag.content_start, end)),
            None => None,
        }
    }
}

/// What a tag holds.
pub fn content_of(xml: &[char], tag: &OpenTag) -> (r: Option<String>)
    requires
        tag.content_start <= xml.len(),
    ensures
        option_model(r) == tag_content(xml@, tag@),
{
    if tag.self_closing {
        return Some(String::new());
    }
    let close = join3("</", tag.name.as_str(), ">");
    match find_chars(xml, to_chars(close.as_str()).as_slice(), tag.content_start) {
        Some(end) => Some(slice_text(xml, tag.content_start, end)),
        None => None,
    }
}

/// What the first tag of a name holds.
pub open spec fn inner_of(xml: Seq<char>, target: Seq<char>) -> Option<Seq<char>> {
    match tag_named(xml, target, 0) {
        Some(tag) => tag_content(xml, tag),
        None => None,
    }
}

pub fn extract_first_tag_inner_by_local_name(xml: &str, target: &str) -> (r: Option<String>)
    ensures
        option_model(r) == inner_of(xml@, target@),
{
    let chars = to_chars(xml);
    match find_tag(chars.as_slice(), target) {
        Some(tag) => content_of(chars.as_slice(), &tag),
        None => None,
    }
}

/// The text that the first tag of a name holds, where it is not blank.
pub open spec fn text_of(xml: Seq<char>, target: Seq<char>) -> Option<Seq<char>> {
    match inner_of(xml, target) {
        Some(inner) => if trim(inner).len() == 0 {
            None
        } else {
            Some(trim(inner))
        },
        None => None,
    }
}

pub fn extract_first_tag_text_by_local_name(xml: &str, target: &str) -> (r: Option<String>)
    ensures
        option_model(r) == text_of(xml@, target@),
{
    match extract_first_tag_inner_by_local_name(xml, target) {
        Some(inner) => {
            let trimmed = trim_text(inner.as_str());
            if trimmed.as_str().is_empty() {
                None
            } else {
                Some(trimmed)
            }
        },
        None => None,
    }
}

/// There is a tag of that name.
pub fn has_tag_with_local_name(xml: &str, target: &str) -> (r: bool)
    ensures
        r == (tag_named(xml@, target@, 0) is Some),
{
    find_tag(to_chars(xml).as_slice(), target).is_some()
}

// ---------------------------------------------------------------- attributes

/// The value of an attribute in the text of a tag: what stands in quotes after its name and
/// an equals sign.
pub open spec fn attribute_value(body: Seq<char>, name: Seq<char>) -> Option<Seq<char>> {
    let needle = name + "="@;
    match find_from(body, needle, 0) {
        None => None,
        Some(i) => {
            let quote_at = i + needle.len();
            if quote_at < body.len() && (body[quote_at] == '"' || body[quote_at] == '\'') {
                match index_of(body, body[quote_at], quote_at + 1) {
                    Some(end) => Some(body.subrange(quote_at + 1, end)),
                    None => None,
                }
            } else {
                None
            }
        },
    }
}

pub fn extract_attribute(body: &str, name: &str) -> (r: Option<String>)
    ensures
        option_model(r) == attribute_value(body@, name@),
{
    let chars = to_chars(body);
    let all = chars.as_slice();
    let needle = to_chars(join2(name, "=").as_str());
    match find_chars(all, needle.as_slice(), 0) {
        None => None,
        Some(i) => {
            let quote_at: usize = i + needle.len();
            if quote_at >= chars.len() {
                return None;
            }
            let quote = chars[quote_at];
            if quote != '"' && quote != '\'' {
                return None;
            }
            match index_of_char(all, quote, quote_at + 1) {
                Some(end) => Some(slice_text(all, quote_at + 1, end)),
                None => None,
            }
        },
    }
}

/// The value of an attribute of the first tag of a name.
pub open spec fn tag_attribute(xml: Seq<char>, target: Seq<char>, name: Seq<char>) -> Option<
    Seq<char>,
> {
    match tag_named(xml, target, 0) {
        Some(tag) => attribute_value(tag.body, name),
        None => None,
    }
}

pub fn extract_first_tag_attribute_by_local_name(xml: &str, target: &str, name: &str) -> (r: Option<
    String,
>)
    ensures
        option_model(r) == tag_attribute(xml@, target@, name@),
{
    match find_tag(to_chars(xml).as_slice(), target) {
        Some(tag) => extract_attribute(tag.body.as_str(), name),
        None => None,
    }
}

// ---------------------------------------------------------------- values

/// What stands between an opening and a closing text, again and again, without the white
/// space around it.
pub open spec fn values_between(
    xml: Seq<char>,
    open: Seq<char>,
    close: Seq<char>,
    from: int,
) -> Seq<Seq<char>>
    decreases xml.len() - from,
{
    if open.len() == 0 {
        Seq::empty()
    } else {
        match find_from(xml, open, from) {
            None => Seq::empty(),
            Some(i) => match find_from(xml, close, i + open.len()) {
                None => Seq::empty(),
                Some(end) => if from <= i && i + open.len() <= end && end + close.len() <= xml.len() {
                    seq![trim(xml.subrange(i + open.len(), end))] + values_between(
                        xml,
                        open,
                        close,
                        end + close.len(),
                    )
                } else {
                    Seq::empty()
                },
            },
        }
    }
}

/// What the elements with exactly that tag hold.
pub open spec fn tag_values(xml: Seq<char>, tag: Seq<char>) -> Seq<Seq<char>> {
    values_between(xml, "<"@ + tag + ">"@, "</"@ + tag + ">"@, 0)
}

/// The texts of a list, taken by their views.
pub open spec fn text_models(texts: Seq<String>) -> Seq<Seq<char>> {
    Seq::new(texts.len(), |i: int| texts[i]@)
}

pub fn extract_all_tag_values(xml: &str, tag: &str) -> (r: Vec<String>)
    ensures
        text_models(r@) == tag_values(xml@, tag@),
{
    let chars = to_chars(xml);
    let all = chars.as_slice();
    let open_text = join3("<", tag, ">");
    let close_text = join3("</", tag, ">");
    let open = to_chars(open_text.as_str());
    let close = to_chars(close_text.as_str());
    proof {
        reveal_strlit("<");
        assert(open@.len() > 0);
    }
    let mut values: Vec<String> = Vec::new();
    let mut at: usize = 0;
    proof {
        assert(text_models(values@) + tag_values(xml@, tag@) =~= tag_values(xml@, tag@));
    }
    loop
        invariant
            all@ == xml@,
            at <= all.len(),
            open@.len() > 0,
            open@ == "<"@ + tag@ + ">"@,
            close@ == "</"@ + tag@ + ">"@,
            tag_values(xml@, tag@) == text_models(values@) + values_between(
                xml@,
                open@,
                close@,
                at as int,
            ),
        decreases all.len() - at,
    {
        let found = find_chars(all, open.as_slice(), at);
        let i: usize = match found {
            Some(i) => i,
            None => {
                proof {
                    assert(text_models(values@) + Seq::<Seq<char>>::empty() =~= text_models(values@));
                }
                return values;
            },
        };
        let start: usize = i + open.len();
        let end: usize = match find_chars(all, close.as_slice(), start) {
            Some(end) => end,
            None => {
                proof {
                    assert(text_models(values@) + Seq::<Seq<char>>::empty() =~= text_models(values@));
                }
                return values;
            },
        };
        let inside = vstd::slice::slice_subrange(all, start, end);
        let (low, high) = trim_bounds(inside);
        let value = slice_text(inside, low, high);
        let ghost before = text_models(values@);
        let ghost rest = values_between(xml@, open@, close@, end + close.len());
        values.push(value);
        proof {
            assert(text_models(values@) =~= before.push(value@));
            assert(before + (seq![value@] + rest) =~= text_models(values@) + rest);
        }
        at = end + close.len();
    }
}

// ---------------------------------------------------------------- escaping

/// What stands for a character in a text of XML.
pub open spec fn escaped_char(c: char) -> Seq<char> {
    if c == '&' {
        "&amp;"@
    } else if c == '<' {
        "&lt;"@
    } else if c == '>' {
        "&gt;"@
    } else if c == '"' {
        "&quot;"@
    } else if c == '\'' {
        "&apos;"@
    } else {
        seq![c]
    }
}

/// The text with each character that XML gives a meaning replaced.
pub open spec fn escaped(s: Seq<char>) -> Seq<char>
    decreases s.len(),
{
    if s.len() == 0 {
        Seq::empty()
    } else {
        escaped(s.drop_last()) + escaped_char(s.last())
    }
}

pub fn escape_xml(input: &str) -> (r: String)
    ensures
        r@ == escaped(input@),
{
    let chars = to_chars(input);
    let mut out: String = String::new();
    let mut i: usize = 0;
    proof {
        assert(chars@.take(0) =~= Seq::<char>::empty());
    }
    while i < chars.len()
        invariant
            i <= chars.len(),
            chars@ == input@,
            out@ == escaped(input@.take(i as int)),
        decreases chars.len() - i,
    {
        let c = chars[i];
        proof {
            assert(input@.take(i + 1).drop_last() =~= input@.take(i as int));
            assert(input@.take(i + 1).last() == c);
        }
        if c == '&' {
            out.append("&amp;");
        } else if c == '<' {
            out.append("&lt;");
        } else if c == '>' {
            out.append("&gt;");
        } else if c == '"' {
            out.append("&quot;");
        } else if c == '\'' {
            out.append("&apos;");
        } else {
            let ghost before = out@;
            out.push(c);
            proof {
                assert(out@ =~= before + seq![c]);
            }
        }
        i = i + 1;
    }
    proof {
        assert(input@.take(i as int) =~= input@);
    }
    out
}

/// An escaped text holds no bracket and no quote.
pub proof fn law_escaped_text_holds_no_markup(s: Seq<char>)
    ensures
        forall|i: int|
            0 <= i < escaped(s).len() ==> {
                let c = #[trigger] escaped(s)[i];
                c != '<' && c != '>' && c != '"' && c != '\''
            },
    decreases s.len(),
{
    reveal_strlit("&amp;");
    reveal_strlit("&lt;");
    reveal_strlit("&gt;");
    reveal_strlit("&quot;");
    reveal_strlit("&apos;");
    if s.len() > 0 {
        law_escaped_text_holds_no_markup(s.drop_last());
        let head = escaped(s.drop_last());
        let tail = escaped_char(s.last());
        assert forall|i: int| 0 <= i < escaped(s).len() implies {
            let c = #[trigger] escaped(s)[i];
            c != '<' && c != '>' && c != '"' && c != '\''
        } by {
            if i < head.len() {
                assert(escaped(s)[i] == head[i]);
            } else {
                assert(escaped(s)[i] == tail[i - head.len()]);
            }
        }
    }
}

} // verus!
