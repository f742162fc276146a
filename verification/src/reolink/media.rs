//! Snapshots: the bytes of the image in a response, and the file they go to.
use crate::command::{channel_params, request_model, CgiCommand, CommandRequest, RequestModel, ResponseModel};
use crate::error::{error_model, result_model, AppError, AppResult, ErrorKind, ErrorModel};
use crate::exchange::{reply_text, CgiReply};
use crate::json::{
    is_tree, item_trees, json_of_text, lemma_item_trees, lemma_member_trees, member_trees,
    option_model, parse_json, tree_get, tree_get2, tree_int_exact, tree_u8, Json, JsonTree,
};
use crate::model::{Snapshot, SnapshotModel};
use crate::reolink::client::or_text;
use crate::text::{
    contains, contains_text, dec, dec_i64, dec_int, dec_u64, ends_with, ends_with_text, index_of,
    index_of_char, join2, join3, lower, lower_text, same_text, slice_text, starts_with,
    starts_with_text, to_chars, trim, trim_text,
};
use vstd::prelude::*;
use vstd::utf8::encode_utf8;

verus! {

// ---------------------------------------------------------------- base64

/// White space of ASCII, which base64 texts may hold anywhere.
pub open spec fn is_ascii_space(c: char) -> bool {
    c == ' ' || c == '\t' || c == '\n' || c == '\u{c}' || c == '\r'
}

/// The text without white space of ASCII.
pub open spec fn compact(s: Seq<char>) -> Seq<char>
    decreases s.len(),
{
    if s.len() == 0 {
        Seq::empty()
    } else if is_ascii_space(s.last()) {
        compact(s.drop_last())
    } else {
        compact(s.drop_last()).push(s.last())
    }
}

/// The six bits that a character of base64 stands for, in the standard alphabet or the one
/// for addresses.
pub open spec fn sextet(c: char) -> Option<int> {
    if 'A' <= c <= 'Z' {
        Some(c as int - 65)
    } else if 'a' <= c <= 'z' {
        Some(c as int - 97 + 26)
    } else if '0' <= c <= '9' {
        Some(c as int - 48 + 52)
    } else if c == '+' || c == '-' {
        Some(62int)
    } else if c == '/' || c == '_' {
        Some(63int)
    } else {
        None
    }
}

pub open spec fn is_base64_char(c: char) -> bool {
    sextet(c) is Some || c == '='
}

pub open spec fn all_base64(s: Seq<char>) -> bool {
    forall|i: int| 0 <= i < s.len() ==> is_base64_char(#[trigger] s[i])
}

/// The bytes of four characters of base64: three, or two or one where padding ends them.
pub open spec fn quad_bytes(q0: char, q1: char, q2: char, q3: char) -> Option<Seq<u8>> {
    match (sextet(q0), sextet(q1)) {
        (Some(a), Some(b)) => {
            let first = (a * 4 + b / 16) as u8;
            match sextet(q2) {
                Some(c) => {
                    let second = ((b % 16) * 16 + c / 4) as u8;
                    match sextet(q3) {
                        Some(d) => Some(seq![first, second, ((c % 4) * 64 + d) as u8]),
                        None => if q3 == '=' {
                            Some(seq![first, second])
                        } else {
                            None
                        },
                    }
                },
                None => if q2 == '=' && q3 == '=' {
                    Some(seq![first])
                } else {
                    None
                },
            }
        },
        _ => None,
    }
}

/// The bytes of a text of base64 whose length is a multiple of four.
pub open spec fn quads_bytes(s: Seq<char>) -> Option<Seq<u8>>
    decreases s.len(),
{
    if s.len() < 4 {
        Some(Seq::empty())
    } else {
        match quad_bytes(s[0], s[1], s[2], s[3]) {
            Some(head) => match quads_bytes(s.skip(4)) {
                Some(tail) => Some(head + tail),
                None => None,
            },
            None => None,
        }
    }
}

/// The text with padding up to a multiple of four.
pub open spec fn padded(s: Seq<char>) -> Seq<char> {
    if s.len() % 4 == 1 {
        s + seq!['=', '=', '=']
    } else if s.len() % 4 == 2 {
        s + seq!['=', '=']
    } else if s.len() % 4 == 3 {
        s + seq!['=']
    } else {
        s
    }
}

/// The bytes of a text of base64.
pub open spec fn base64_bytes(text: Seq<char>) -> Option<Seq<u8>> {
    let s = compact(text);
    if s.len() == 0 || !all_base64(s) {
        None
    } else {
        quads_bytes(padded(s))
    }
}

fn compact_chars(text: &str) -> (r: Vec<char>)
    ensures
        r@ == compact(text@),
{
    let chars = to_chars(text);
    let mut out: Vec<char> = Vec::new();
    let mut i: usize = 0;
    proof {
        assert(chars@.take(0) =~= Seq::<char>::empty());
    }
    while i < chars.len()
        invariant
            i <= chars.len(),
            chars@ == text@,
            out@ == compact(text@.take(i as int)),
        decreases chars.len() - i,
    {
        let c = chars[i];
        proof {
            assert(text@.take(i + 1).drop_last() =~= text@.take(i as int));
            assert(text@.take(i + 1).last() == c);
        }
        if !(c == ' ' || c == '\t' || c == '\n' || c == '\u{c}' || c == '\r') {
            out.push(c);
        }
        i = i + 1;
    }
    proof {
        assert(text@.take(i as int) =~= text@);
    }
    out
}

fn base64_char_value(c: char) -> (r: Option<u8>)
    ensures
        match r {
            Some(n) => sextet(c) == Some(n as int) && n < 64,
            None => sextet(c) is None,
        },
{
    if 'A' <= c && c <= 'Z' {
        Some((c as u32 - 65) as u8)
    } else if 'a' <= c && c <= 'z' {
        Some((c as u32 - 97 + 26) as u8)
    } else if '0' <= c && c <= '9' {
        Some((c as u32 - 48 + 52) as u8)
    } else if c == '+' || c == '-' {
        Some(62)
    } else if c == '/' || c == '_' {
        Some(63)
    } else {
        None
    }
}

fn is_all_base64(chars: &Vec<char>) -> (r: bool)
    ensures
        r == all_base64(chars@),
{
    let mut i: usize = 0;
    while i < chars.len()
        invariant
            i <= chars.len(),
            forall|j: int| 0 <= j < i ==> is_base64_char(#[trigger] chars@[j]),
        decreases chars.len() - i,
    {
        if base64_char_value(chars[i]).is_none() && chars[i] != '=' {
            proof {
                assert(!is_base64_char(chars@[i as int]));
            }
            return false;
        }
        i = i + 1;
    }
    true
}

fn decode_quad(q0: char, q1: char, q2: char, q3: char) -> (r: Option<Vec<u8>>)
    ensures
        match r {
            Some(bytes) => quad_bytes(q0, q1, q2, q3) == Some(bytes@),
            None => quad_bytes(q0, q1, q2, q3) is None,
        },
{
    let (a, b) = match (base64_char_value(q0), base64_char_value(q1)) {
        (Some(a), Some(b)) => (a, b),
        _ => {
            return None;
        },
    };
    let first: u8 = a * 4 + b / 16;
    match base64_char_value(q2) {
        Some(c) => {
            let second: u8 = (b % 16) * 16 + c / 4;
            match base64_char_value(q3) {
                Some(d) => {
                    let out: Vec<u8> = vec![first, second, (c % 4) * 64 + d];
                    proof {
                        assert(out@ =~= quad_bytes(q0, q1, q2, q3)->0);
                    }
                    Some(out)
                },
                None => {
                    if q3 != '=' {
                        return None;
                    }
                    let out: Vec<u8> = vec![first, second];
                    proof {
                        assert(out@ =~= quad_bytes(q0, q1, q2, q3)->0);
                    }
                    Some(out)
                },
            }
        },
        None => {
            if q2 != '=' || q3 != '=' {
                return None;
            }
            let out: Vec<u8> = vec![first];
            proof {
                assert(out@ =~= quad_bytes(q0, q1, q2, q3)->0);
            }
            Some(out)
        },
    }
}

fn pad(chars: Vec<char>) -> (r: Vec<char>)
    ensures
        r@ == padded(chars@),
        r@.len() % 4 == 0,
{
    let missing: usize = if chars.len() % 4 == 0 {
        0
    } else {
        4 - chars.len() % 4
    };
    let mut full = chars;
    if missing >= 1 {
        full.push('=');
    }
    if missing >= 2 {
        full.push('=');
    }
    if missing >= 3 {
        full.push('=');
    }
    assert(full@ =~= padded(chars@));
    full
}

fn decode_quads(chars: &Vec<char>) -> (r: Option<Vec<u8>>)
    requires
        chars@.len() % 4 == 0,
    ensures
        match r {
            Some(bytes) => quads_bytes(chars@) == Some(bytes@),
            None => quads_bytes(chars@) is None,
        },
{
    let mut out: Vec<u8> = Vec::new();
    let mut i: usize = 0;
    proof {
        assert(chars@.skip(0) =~= chars@);
        if let Some(tail) = quads_bytes(chars@) {
            assert(out@ + tail =~= tail);
        }
    }
    while i < chars.len()
        invariant
            i <= chars.len(),
            i % 4 == 0,
            chars.len() % 4 == 0,
            match quads_bytes(chars@.skip(i as int)) {
                Some(tail) => quads_bytes(chars@) == Some(out@ + tail),
                None => quads_bytes(chars@) is None,
            },
        decreases chars.len() - i,
    {
        let ghost rest = chars@.skip(i as int);
        proof {
            assert(rest.skip(4) =~= chars@.skip(i + 4));
        }
        match decode_quad(chars[i], chars[i + 1], chars[i + 2], chars[i + 3]) {
            Some(bytes) => {
                let ghost before = out@;
                let ghost head = bytes@;
                let mut bytes = bytes;
                out.append(&mut bytes);
                proof {
                    if let Some(tail) = quads_bytes(rest.skip(4)) {
                        assert(before + (head + tail) =~= out@ + tail);
                    }
                }
            },
            None => {
                return None;
            },
        }
        i = i + 4;
    }
    proof {
        assert(chars@.skip(i as int).len() == 0);
        assert(out@ + Seq::<u8>::empty() =~= out@);
    }
    Some(out)
}

/// The bytes of a text of base64. White space is passed over, and missing padding is added.
pub fn decode_base64(text: &str) -> (r: Option<Vec<u8>>)
    ensures
        match r {
            Some(bytes) => base64_bytes(text@) == Some(bytes@),
            None => base64_bytes(text@) is None,
        },
{
    let chars = compact_chars(text);
    if chars.len() == 0 || !is_all_base64(&chars) {
        return None;
    }
    decode_quads(&pad(chars))
}

// ---------------------------------------------------------------- texts

/// The base64 part of a data address.
pub open spec fn data_url_payload(text: Seq<char>) -> Option<Seq<char>> {
    if !starts_with(text, "data:"@) {
        None
    } else {
        match index_of(text, ',', 0) {
            Some(comma) => if contains(lower(text.take(comma)), ";base64"@) {
                Some(text.skip(comma + 1))
            } else {
                None
            },
            None => None,
        }
    }
}

/// The text looks like base64: eight characters of it at least, and either one that is no
/// letter or digit, or sixteen characters at least in whole groups of four.
pub open spec fn looks_like_base64_text(text: Seq<char>) -> bool {
    let s = compact(text);
    &&& s.len() >= 8
    &&& all_base64(s)
    &&& {
        ||| s.contains('=') || s.contains('+') || s.contains('/') || s.contains('-') || s.contains('_')
        ||| s.len() >= 16 && s.len() % 4 == 0
    }
}

/// The text looks like the name of a file.
pub open spec fn looks_like_path(text: Seq<char>) -> bool {
    ||| text.contains('/')
    ||| text.contains('\\')
    ||| ends_with(lower(text), ".jpg"@)
    ||| ends_with(lower(text), ".jpeg"@)
    ||| ends_with(lower(text), ".png"@)
}

/// The bytes that a text stands for: those of the base64 in it, or those of the text itself
/// unless it looks like the name of a file.
pub open spec fn text_bytes(raw: Seq<char>) -> Option<Seq<u8>> {
    let text = trim(raw);
    if text.len() == 0 {
        None
    } else if data_url_payload(text) matches Some(payload) && base64_bytes(payload) is Some {
        base64_bytes(data_url_payload(text)->0)
    } else if looks_like_base64_text(text) && base64_bytes(text) is Some {
        base64_bytes(text)
    } else if !looks_like_path(text) {
        Some(encode_utf8(text))
    } else {
        None
    }
}

fn data_url_base64_payload(text: &str) -> (r: Option<String>)
    ensures
        option_model(r) == data_url_payload(text@),
{
    if !starts_with_text(text, "data:") {
        return None;
    }
    let chars = to_chars(text);
    match index_of_char(chars.as_slice(), ',', 0) {
        Some(comma) => {
            let meta = slice_text(chars.as_slice(), 0, comma);
            proof {
                assert(meta@ =~= text@.take(comma as int));
                assert(chars@.subrange(comma + 1, chars.len() as int) =~= text@.skip(comma + 1));
            }
            if contains_text(lower_text(meta.as_str()).as_str(), ";base64") {
                Some(slice_text(chars.as_slice(), comma + 1, chars.len()))
            } else {
                None
            }
        },
        None => None,
    }
}

fn has_char(chars: &Vec<char>, c: char) -> (r: bool)
    ensures
        r == chars@.contains(c),
{
    let found = index_of_char(chars.as_slice(), c, 0);
    proof {
        crate::text::lemma_index_of(chars@, c, 0);
    }
    found.is_some()
}

fn looks_like_base64(text: &str) -> (r: bool)
    ensures
        r == looks_like_base64_text(text@),
{
    let s = compact_chars(text);
    if s.len() < 8 || !is_all_base64(&s) {
        return false;
    }
    has_char(&s, '=') || has_char(&s, '+') || has_char(&s, '/') || has_char(&s, '-') || has_char(
        &s,
        '_',
    ) || (s.len() >= 16 && s.len() % 4 == 0)
}

fn looks_like_file_path(text: &str) -> (r: bool)
    ensures
        r == looks_like_path(text@),
{
    let lowered = lower_text(text);
    let chars = to_chars(text);
    has_char(&chars, '/') || has_char(&chars, '\\') || ends_with_text(lowered.as_str(), ".jpg")
        || ends_with_text(lowered.as_str(), ".jpeg") || ends_with_text(lowered.as_str(), ".png")
}

/// The bytes that a text stands for.
pub fn decode_byte_string(raw: &str) -> (r: Option<Vec<u8>>)
    ensures
        match r {
            Some(bytes) => text_bytes(raw@) == Some(bytes@),
            None => text_bytes(raw@) is None,
        },
{
    let text = trim_text(raw);
    if text.as_str().is_empty() {
        return None;
    }
    if let Some(payload) = data_url_base64_payload(text.as_str()) {
        if let Some(bytes) = decode_base64(payload.as_str()) {
            return Some(bytes);
        }
    }
    if looks_like_base64(text.as_str()) {
        if let Some(bytes) = decode_base64(text.as_str()) {
            return Some(bytes);
        }
    }
    if !looks_like_file_path(text.as_str()) {
        return Some(text.as_str().as_bytes_vec());
    }
    None
}

// ---------------------------------------------------------------- images

/// The bytes of a list of small numbers.
pub open spec fn item_bytes(items: Seq<JsonTree>) -> Option<Seq<u8>>
    decreases items.len(),
{
    if items.len() == 0 {
        Some(Seq::empty())
    } else {
        match (item_bytes(items.drop_last()), tree_u8(items.last())) {
            (Some(head), Some(byte)) => Some(head.push(byte as u8)),
            _ => None,
        }
    }
}

pub open spec fn or_bytes(first: Option<Seq<u8>>, second: Option<Seq<u8>>) -> Option<Seq<u8>> {
    match first {
        Some(bytes) => Some(bytes),
        None => second,
    }
}

/// The bytes of the image that a value holds: a list of numbers, a text, or an object with
/// one of them under one of six names.
pub open spec fn image_of(tree: JsonTree) -> Option<Seq<u8>>
    decreases tree,
{
    match tree {
        JsonTree::Array(items) => item_bytes(items),
        JsonTree::Text(text) => text_bytes(text),
        JsonTree::Object(members) => or_bytes(
            image_under(members, "imageBase64"@),
            or_bytes(
                image_under(members, "base64"@),
                or_bytes(
                    image_under(members, "b64"@),
                    or_bytes(
                        image_under(members, "data"@),
                        or_bytes(
                            image_under(members, "bytes"@),
                            image_under(members, "imageData"@),
                        ),
                    ),
                ),
            ),
        ),
        _ => None,
    }
}

/// The bytes of the image under a name.
pub open spec fn image_under(members: Seq<(Seq<char>, JsonTree)>, name: Seq<char>) -> Option<
    Seq<u8>,
>
    decreases members,
{
    if members.len() == 0 {
        None
    } else if members[0].0 == name {
        image_of(members[0].1)
    } else {
        image_under(members.drop_first(), name)
    }
}

pub open spec fn optional_bytes(r: Option<Vec<u8>>) -> Option<Seq<u8>> {
    match r {
        Some(bytes) => Some(bytes@),
        None => None,
    }
}

fn decode_byte_array(items: &Vec<Json>) -> (r: Option<Vec<u8>>)
    ensures
        optional_bytes(r) == item_bytes(item_trees(items@)),
{
    let ghost trees = item_trees(items@);
    let mut out: Vec<u8> = Vec::new();
    let mut i: usize = 0;
    proof {
        lemma_item_trees(items@);
        assert(trees.take(0) =~= Seq::<JsonTree>::empty());
    }
    while i < items.len()
        invariant
            i <= items.len(),
            trees == item_trees(items@),
            trees.len() == items.len(),
            forall|k: int| 0 <= k < items.len() ==> #[trigger] trees[k] == items@[k]@,
            item_bytes(trees.take(i as int)) == Some(out@),
        decreases items.len() - i,
    {
        proof {
            assert(trees.take(i + 1).drop_last() =~= trees.take(i as int));
            assert(trees.take(i + 1).last() == trees[i as int]);
        }
        match items[i].as_byte() {
            Some(byte) => {
                out.push(byte);
            },
            None => {
                proof {
                    lemma_item_bytes_none(trees, i + 1);
                }
                return None;
            },
        }
        i = i + 1;
    }
    proof {
        assert(trees.take(i as int) =~= trees);
    }
    Some(out)
}

/// A list that is no list of bytes does not become one by more items.
proof fn lemma_item_bytes_none(items: Seq<JsonTree>, k: int)
    requires
        0 <= k <= items.len(),
        item_bytes(items.take(k)) is None,
    ensures
        item_bytes(items) is None,
    decreases items.len() - k,
{
    if k == items.len() {
        assert(items.take(k) =~= items);
    } else {
        assert(items.take(k + 1).drop_last() =~= items.take(k));
        lemma_item_bytes_none(items, k + 1);
    }
}

/// The bytes of the image that a value holds.
pub fn decode_image_bytes(value: &Json) -> (r: Option<Vec<u8>>)
    ensures
        optional_bytes(r) == image_of(value@),
    decreases value, 1int,
{
    match value {
        Json::Array(items) => decode_byte_array(items),
        Json::Text(text) => decode_byte_string(text.as_str()),
        Json::Object(members) => {
            let found = decode_member(value, members, "imageBase64");
            if found.is_some() {
                return found;
            }
            let found = decode_member(value, members, "base64");
            if found.is_some() {
                return found;
            }
            let found = decode_member(value, members, "b64");
            if found.is_some() {
                return found;
            }
            let found = decode_member(value, members, "data");
            if found.is_some() {
                return found;
            }
            let found = decode_member(value, members, "bytes");
            if found.is_some() {
                return found;
            }
            decode_member(value, members, "imageData")
        },
        _ => None,
    }
}

fn decode_member(value: &Json, members: &Vec<(String, Json)>, name: &str) -> (r: Option<Vec<u8>>)
    requires
        *value == Json::Object(*members),
    ensures
        optional_bytes(r) == image_under(member_trees(members@), name@),
    decreases value, 0int,
{
    proof {
        lemma_member_trees(members@);
        assert(member_trees(members@).skip(0) =~= member_trees(members@));
    }
    let mut i: usize = 0;
    while i < members.len()
        invariant
            i <= members.len(),
            *value == Json::Object(*members),
            member_trees(members@).len() == members.len(),
            forall|k: int|
                0 <= k < members.len() ==> #[trigger] member_trees(members@)[k] == (
                    members@[k].0@,
                    members@[k].1@,
                ),
            image_under(member_trees(members@), name@) == image_under(
                member_trees(members@).skip(i as int),
                name@,
            ),
        decreases members.len() - i,
    {
        proof {
            let rest = member_trees(members@).skip(i as int);
            assert(rest[0] == member_trees(members@)[i as int]);
            assert(rest.drop_first() =~= member_trees(members@).skip(i + 1));
            assert(decreases_to!(value => value->Object_0@[i as int].1));
        }
        if same_text(members[i].0.as_str(), name) {
            return decode_image_bytes(&members[i].1);
        }
        i = i + 1;
    }
    None
}

/// The image in what was found, if anything was.
pub open spec fn found_image(found: Option<JsonTree>) -> Option<Seq<u8>> {
    match found {
        Some(tree) => image_of(tree),
        None => None,
    }
}

fn decode_found(found: Option<&Json>) -> (r: Option<Vec<u8>>)
    ensures
        forall|tree: Option<JsonTree>| #[trigger]
            is_tree(found, tree) ==> optional_bytes(r) == found_image(tree),
{
    match found {
        Some(value) => decode_image_bytes(value),
        None => None,
    }
}

/// The bytes of the image in an entry of a response: under one of six names in its value, or
/// under one of five in the entry itself.
pub open spec fn entry_image(entry: JsonTree) -> Option<Seq<u8>> {
    or_bytes(
        found_image(tree_get2(entry, "value"@, "imageBase64"@)),
        or_bytes(
            found_image(tree_get2(entry, "value"@, "base64"@)),
            or_bytes(
                found_image(tree_get2(entry, "value"@, "b64"@)),
                or_bytes(
                    found_image(tree_get2(entry, "value"@, "data"@)),
                    or_bytes(
                        found_image(tree_get2(entry, "value"@, "bytes"@)),
                        or_bytes(
                            found_image(tree_get2(entry, "value"@, "imageData"@)),
                            or_bytes(
                                found_image(tree_get(entry, "imageBase64"@)),
                                or_bytes(
                                    found_image(tree_get(entry, "base64"@)),
                                    or_bytes(
                                        found_image(tree_get(entry, "b64"@)),
                                        or_bytes(
                                            found_image(tree_get(entry, "data"@)),
                                            found_image(tree_get(entry, "bytes"@)),
                                        ),
                                    ),
                                ),
                            ),
                        ),
                    ),
                ),
            ),
        ),
    )
}

fn extract_image_bytes(entry: &Json) -> (r: Option<Vec<u8>>)
    ensures
        optional_bytes(r) == entry_image(entry@),
{
    let found = decode_found(entry.get2("value", "imageBase64"));
    if found.is_some() {
        return found;
    }
    let found = decode_found(entry.get2("value", "base64"));
    if found.is_some() {
        return found;
    }
    let found = decode_found(entry.get2("value", "b64"));
    if found.is_some() {
        return found;
    }
    let found = decode_found(entry.get2("value", "data"));
    if found.is_some() {
        return found;
    }
    let found = decode_found(entry.get2("value", "bytes"));
    if found.is_some() {
        return found;
    }
    let found = decode_found(entry.get2("value", "imageData"));
    if found.is_some() {
        return found;
    }
    let found = decode_found(entry.get("imageBase64"));
    if found.is_some() {
        return found;
    }
    let found = decode_found(entry.get("base64"));
    if found.is_some() {
        return found;
    }
    let found = decode_found(entry.get("b64"));
    if found.is_some() {
        return found;
    }
    let found = decode_found(entry.get("data"));
    if found.is_some() {
        return found;
    }
    decode_found(entry.get("bytes"))
}

/// A text that is not blank, without the white space around it.
pub open spec fn trimmed_text(found: Option<JsonTree>) -> Option<Seq<char>> {
    match found {
        Some(JsonTree::Text(text)) => if trim(text).len() > 0 {
            Some(trim(text))
        } else {
            None
        },
        _ => None,
    }
}

fn non_empty_string(found: Option<&Json>) -> (r: Option<String>)
    ensures
        forall|tree: Option<JsonTree>| #[trigger]
            is_tree(found, tree) ==> option_model(r) == trimmed_text(tree),
{
    match found {
        Some(value) => match value {
            Json::Text(text) => {
                let trimmed = trim_text(text.as_str());
                if trimmed.as_str().is_empty() {
                    None
                } else {
                    Some(trimmed)
                }
            },
            _ => None,
        },
        None => None,
    }
}

/// The path that an entry of a response names.
pub open spec fn entry_path(entry: JsonTree) -> Option<Seq<char>> {
    or_text(
        trimmed_text(tree_get2(entry, "value"@, "path"@)),
        or_text(
            trimmed_text(tree_get2(entry, "value"@, "file"@)),
            or_text(
                trimmed_text(tree_get(entry, "file"@)),
                or_text(
                    trimmed_text(tree_get(entry, "path"@)),
                    trimmed_text(tree_get(entry, "image"@)),
                ),
            ),
        ),
    )
}

fn find_entry_path(entry: &Json) -> (r: Option<String>)
    ensures
        option_model(r) == entry_path(entry@),
{
    let found = non_empty_string(entry.get2("value", "path"));
    if found.is_some() {
        return found;
    }
    let found = non_empty_string(entry.get2("value", "file"));
    if found.is_some() {
        return found;
    }
    let found = non_empty_string(entry.get("file"));
    if found.is_some() {
        return found;
    }
    let found = non_empty_string(entry.get("path"));
    if found.is_some() {
        return found;
    }
    non_empty_string(entry.get("image"))
}

/// The entry of a response: the first of a list, else the response itself.
pub open spec fn first_entry(tree: JsonTree) -> JsonTree {
    match tree {
        JsonTree::Array(items) => if items.len() > 0 {
            items[0]
        } else {
            tree
        },
        _ => tree,
    }
}

/// The image in a `Snap` response.
pub open spec fn snap_in(tree: JsonTree) -> Result<Seq<u8>, ErrorModel> {
    let entry = first_entry(tree);
    let code = match tree_get(entry, "code"@) {
        Some(raw) => tree_int_exact(raw),
        None => None,
    };
    if code matches Some(n) && n != 0 {
        Err(
            error_model(
                ErrorKind::UnexpectedResponse,
                "Snap command failed with code="@ + dec_int(code->0),
            ),
        )
    } else {
        match entry_image(entry) {
            Some(bytes) => Ok(bytes),
            None => Err(
                error_model(
                    ErrorKind::UnexpectedResponse,
                    "Snap response did not include image bytes in supported payload fields; parsed path="@
                        + match entry_path(entry) {
                        Some(path) => path,
                        None => "<none>"@,
                    },
                ),
            ),
        }
    }
}

pub open spec fn snap_of(raw_json: Seq<char>) -> Result<Seq<u8>, ErrorModel> {
    match json_of_text(raw_json) {
        Ok(tree) => snap_in(tree),
        Err(message) => Err(
            error_model(
                ErrorKind::UnexpectedResponse,
                "invalid Snap response JSON: "@ + message,
            ),
        ),
    }
}

pub open spec fn bytes_result(r: AppResult<Vec<u8>>) -> Result<Seq<u8>, ErrorModel> {
    match r {
        Ok(bytes) => Ok(bytes@),
        Err(error) => Err(error@),
    }
}

/// The image in a `Snap` response.
pub fn snap_from_json(parsed: &Json) -> (r: AppResult<Vec<u8>>)
    ensures
        bytes_result(r) == snap_in(parsed@),
{
    let entry: &Json = match parsed {
        Json::Array(items) => {
            proof {
                lemma_item_trees(items@);
            }
            if items.len() > 0 {
                &items[0]
            } else {
                parsed
            }
        },
        _ => parsed,
    };
    if let Some(raw) = entry.get("code") {
        if let Some(code) = raw.as_int_exact() {
            if code != 0 {
                return Err(
                    AppError::with_message(
                        ErrorKind::UnexpectedResponse,
                        join2("Snap command failed with code=", dec_i64(code).as_str()),
                    ),
                );
            }
        }
    }
    match extract_image_bytes(entry) {
        Some(bytes) => Ok(bytes),
        None => {
            let hint = match find_entry_path(entry) {
                Some(path) => path,
                None => "<none>".to_owned(),
            };
            Err(
                AppError::with_message(
                    ErrorKind::UnexpectedResponse,
                    join2(
                        "Snap response did not include image bytes in supported payload fields; parsed path=",
                        hint.as_str(),
                    ),
                ),
            )
        },
    }
}

/// The image in the text of a `Snap` response.
pub fn parse_snap_response(raw_json: &str) -> (r: AppResult<Vec<u8>>)
    ensures
        bytes_result(r) == snap_of(raw_json@),
{
    match parse_json(raw_json) {
        Ok(parsed) => snap_from_json(&parsed),
        Err(message) => Err(
            AppError::with_message(
                ErrorKind::UnexpectedResponse,
                join2("invalid Snap response JSON: ", message.as_str()),
            ),
        ),
    }
}

// ---------------------------------------------------------------- files

/// The file of a snapshot: the one asked for, else one named after the channel.
pub open spec fn output_path(channel: u8, out_path: Option<Seq<char>>) -> Result<
    Seq<char>,
    ErrorModel,
> {
    match out_path {
        None => Ok("snapshots/channel-"@ + dec(channel as nat) + ".jpg"@),
        Some(raw) => if trim(raw).len() == 0 {
            Err(error_model(ErrorKind::InvalidInput, "output path must not be empty"@))
        } else {
            Ok(trim(raw))
        },
    }
}

fn resolve_output_path(channel: u8, out_path: Option<&str>) -> (r: AppResult<String>)
    ensures
        result_model(r) == output_path(
            channel,
            match out_path {
                Some(raw) => Some(raw@),
                None => None,
            },
        ),
{
    match out_path {
        None => Ok(join3("snapshots/channel-", dec_u64(channel as u64).as_str(), ".jpg")),
        Some(raw) => {
            let trimmed = trim_text(raw);
            if trimmed.as_str().is_empty() {
                return Err(
                    AppError::new(ErrorKind::InvalidInput, "output path must not be empty"),
                );
            }
            Ok(trimmed)
        },
    }
}

/// What came of writing a file.
#[derive(Debug, Clone, PartialEq, Eq)]
pub enum SaveReply {
    DirectoryFailed { directory: String, error: String },
    WriteFailed { error: String },
    Saved,
}

pub ghost enum SaveModel {
    DirectoryFailed { directory: Seq<char>, error: Seq<char> },
    WriteFailed { error: Seq<char> },
    Saved,
}

impl View for SaveReply {
    type V = SaveModel;

    open spec fn view(&self) -> SaveModel {
        match self {
            SaveReply::DirectoryFailed { directory, error } => SaveModel::DirectoryFailed {
                directory: directory@,
                error: error@,
            },
            SaveReply::WriteFailed { error } => SaveModel::WriteFailed { error: error@ },
            SaveReply::Saved => SaveModel::Saved,
        }
    }
}

/// The next step of a snapshot.
pub enum SnapStep {
    Send(CommandRequest),
    Save { path: String, bytes: Vec<u8> },
    Done(AppResult<Snapshot>),
}

pub ghost enum SnapModel {
    Send(RequestModel),
    Save { path: Seq<char>, bytes: Seq<u8> },
    Done(Result<SnapshotModel, ErrorModel>),
}

impl View for SnapStep {
    type V = SnapModel;

    open spec fn view(&self) -> SnapModel {
        match self {
            SnapStep::Send(request) => SnapModel::Send(request@),
            SnapStep::Save { path, bytes } => SnapModel::Save { path: path@, bytes: bytes@ },
            SnapStep::Done(result) => SnapModel::Done(result_model(*result)),
        }
    }
}

/// A snapshot: the image is asked for, and written to its file.
pub open spec fn snap_step(
    channel: u8,
    out_path: Option<Seq<char>>,
    reply: Option<Result<ResponseModel, ErrorModel>>,
    saved: Option<SaveModel>,
) -> SnapModel {
    match reply {
        None => SnapModel::Send(request_model(CgiCommand::Snap, channel_params(channel))),
        Some(Err(error)) => SnapModel::Done(Err(error)),
        Some(Ok(response)) => match snap_of(response.raw_json) {
            Err(error) => SnapModel::Done(Err(error)),
            Ok(bytes) => match output_path(channel, out_path) {
                Err(error) => SnapModel::Done(Err(error)),
                Ok(path) => match saved {
                    None => SnapModel::Save { path, bytes },
                    Some(SaveModel::DirectoryFailed { directory, error }) => SnapModel::Done(
                        Err(
                            error_model(
                                ErrorKind::InvalidInput,
                                "failed to create snapshot output directory "@ + directory + ": "@
                                    + error,
                            ),
                        ),
                    ),
                    Some(SaveModel::WriteFailed { error }) => SnapModel::Done(
                        Err(
                            error_model(
                                ErrorKind::InvalidInput,
                                "failed to write snapshot file "@ + path + ": "@ + error,
                            ),
                        ),
                    ),
                    Some(SaveModel::Saved) => SnapModel::Done(
                        Ok(
                            SnapshotModel {
                                channel,
                                image_path: path,
                                bytes_written: bytes.len() as usize,
                            },
                        ),
                    ),
                },
            },
        },
    }
}

pub open spec fn optional_reply(reply: Option<&CgiReply>) -> Option<
    Result<ResponseModel, ErrorModel>,
> {
    match reply {
        Some(inner) => Some(result_model(*inner)),
        None => None,
    }
}

pub open spec fn optional_save(saved: Option<&SaveReply>) -> Option<SaveModel> {
    match saved {
        Some(inner) => Some(inner@),
        None => None,
    }
}

pub open spec fn optional_str(text: Option<&str>) -> Option<Seq<char>> {
    match text {
        Some(inner) => Some(inner@),
        None => None,
    }
}

/// Takes a snapshot of a channel and writes it to a file.
pub fn snap_with_out_path(
    channel: u8,
    out_path: Option<&str>,
    reply: Option<&CgiReply>,
    saved: Option<&SaveReply>,
) -> (r: SnapStep)
    ensures
        r@ == snap_step(
            channel,
            optional_str(out_path),
            optional_reply(reply),
            optional_save(saved),
        ),
{
    let answer = match reply {
        Some(answer) => answer,
        None => {
            return SnapStep::Send(CommandRequest::for_channel(CgiCommand::Snap, channel));
        },
    };
    let bytes = match reply_text(answer) {
        Ok(raw_json) => match parse_snap_response(raw_json) {
            Ok(bytes) => bytes,
            Err(error) => {
                return SnapStep::Done(Err(error));
            },
        },
        Err(error) => {
            return SnapStep::Done(Err(error));
        },
    };
    let path = match resolve_output_path(channel, out_path) {
        Ok(path) => path,
        Err(error) => {
            return SnapStep::Done(Err(error));
        },
    };
    match saved {
        None => SnapStep::Save { path, bytes },
        Some(outcome) => match outcome {
            SaveReply::DirectoryFailed { directory, error } => {
                let mut text = join3(
                    "failed to create snapshot output directory ",
                    directory.as_str(),
                    ": ",
                );
                text.append(error.as_str());
                SnapStep::Done(Err(AppError::with_message(ErrorKind::InvalidInput, text)))
            },
            SaveReply::WriteFailed { error } => {
                let mut text = join3("failed to write snapshot file ", path.as_str(), ": ");
                text.append(error.as_str());
                SnapStep::Done(Err(AppError::with_message(ErrorKind::InvalidInput, text)))
            },
            SaveReply::Saved => SnapStep::Done(
                Ok(Snapshot { channel, image_path: path, bytes_written: bytes.len() }),
            ),
        },
    }
}

/// Takes a snapshot of a channel and writes it to the file named after the channel.
pub fn snap(channel: u8, reply: Option<&CgiReply>, saved: Option<&SaveReply>) -> (r: SnapStep)
    ensures
        r@ == snap_step(channel, None, optional_reply(reply), optional_save(saved)),
{
    snap_with_out_path(channel, None, reply, saved)
}

// ---------------------------------------------------------------- laws

/// The character of the standard alphabet for six bits.
pub open spec fn sextet_char(n: int) -> char {
    if n < 26 {
        (65 + n) as char
    } else if n < 52 {
        (97 + n - 26) as char
    } else if n < 62 {
        (48 + n - 52) as char
    } else if n == 62 {
        '+'
    } else {
        '/'
    }
}

/// The standard base64 text of bytes.
pub open spec fn base64_text(bytes: Seq<u8>) -> Seq<char>
    decreases bytes.len(),
{
    if bytes.len() == 0 {
        Seq::empty()
    } else if bytes.len() == 1 {
        seq![sextet_char(bytes[0] as int / 4), sextet_char((bytes[0] as int % 4) * 16), '=', '=']
    } else if bytes.len() == 2 {
        seq![
            sextet_char(bytes[0] as int / 4),
            sextet_char((bytes[0] as int % 4) * 16 + bytes[1] as int / 16),
            sextet_char((bytes[1] as int % 16) * 4),
            '=',
        ]
    } else {
        seq![
            sextet_char(bytes[0] as int / 4),
            sextet_char((bytes[0] as int % 4) * 16 + bytes[1] as int / 16),
            sextet_char((bytes[1] as int % 16) * 4 + bytes[2] as int / 64),
            sextet_char(bytes[2] as int % 64),
        ] + base64_text(bytes.skip(3))
    }
}

proof fn lemma_sextet_char(n: int)
    requires
        0 <= n < 64,
    ensures
        sextet(sextet_char(n)) == Some(n),
        !is_ascii_space(sextet_char(n)),
        is_base64_char(sextet_char(n)),
{
}

/// A character that may stand in a base64 text.
spec fn is_plain(c: char) -> bool {
    is_base64_char(c) && !is_ascii_space(c)
}

proof fn lemma_quad_of_three(b0: u8, b1: u8, b2: u8)
    ensures
        quad_bytes(
            sextet_char(b0 as int / 4),
            sextet_char((b0 as int % 4) * 16 + b1 as int / 16),
            sextet_char((b1 as int % 16) * 4 + b2 as int / 64),
            sextet_char(b2 as int % 64),
        ) == Some(seq![b0, b1, b2]),
        is_plain(sextet_char(b0 as int / 4)),
        is_plain(sextet_char((b0 as int % 4) * 16 + b1 as int / 16)),
        is_plain(sextet_char((b1 as int % 16) * 4 + b2 as int / 64)),
        is_plain(sextet_char(b2 as int % 64)),
{
    lemma_sextet_char(b0 as int / 4);
    lemma_sextet_char((b0 as int % 4) * 16 + b1 as int / 16);
    lemma_sextet_char((b1 as int % 16) * 4 + b2 as int / 64);
    lemma_sextet_char(b2 as int % 64);
}

proof fn lemma_quad_of_two(b0: u8, b1: u8)
    ensures
        quad_bytes(
            sextet_char(b0 as int / 4),
            sextet_char((b0 as int % 4) * 16 + b1 as int / 16),
            sextet_char((b1 as int % 16) * 4),
            '=',
        ) == Some(seq![b0, b1]),
        is_plain(sextet_char(b0 as int / 4)),
        is_plain(sextet_char((b0 as int % 4) * 16 + b1 as int / 16)),
        is_plain(sextet_char((b1 as int % 16) * 4)),
{
    lemma_sextet_char(b0 as int / 4);
    lemma_sextet_char((b0 as int % 4) * 16 + b1 as int / 16);
    lemma_sextet_char((b1 as int % 16) * 4);
}

proof fn lemma_quad_of_one(b0: u8)
    ensures
        quad_bytes(sextet_char(b0 as int / 4), sextet_char((b0 as int % 4) * 16), '=', '=') == Some(
            seq![b0],
        ),
        is_plain(sextet_char(b0 as int / 4)),
        is_plain(sextet_char((b0 as int % 4) * 16)),
{
    lemma_sextet_char(b0 as int / 4);
    lemma_sextet_char((b0 as int % 4) * 16);
}

/// A quad before a text of quads.
proof fn lemma_quads_step(quad: Seq<char>, head: Seq<u8>, tail: Seq<char>, rest: Seq<u8>)
    requires
        quad.len() == 4,
        quad_bytes(quad[0], quad[1], quad[2], quad[3]) == Some(head),
        quads_bytes(tail) == Some(rest),
        forall|i: int| 0 <= i < 4 ==> is_plain(#[trigger] quad[i]),
        forall|i: int| 0 <= i < tail.len() ==> is_plain(#[trigger] tail[i]),
    ensures
        quads_bytes(quad + tail) == Some(head + rest),
        forall|i: int| 0 <= i < (quad + tail).len() ==> is_plain(#[trigger] (quad + tail)[i]),
{
    assert((quad + tail).skip(4) =~= tail);
    assert forall|i: int| 0 <= i < (quad + tail).len() implies is_plain(
        #[trigger] (quad + tail)[i],
    ) by {
        if i >= 4 {
            assert((quad + tail)[i] == tail[i - 4]);
        } else {
            assert((quad + tail)[i] == quad[i]);
        }
    }
}

#[verifier::spinoff_prover]
#[verifier::rlimit(60)]
proof fn lemma_base64_text_plain(bytes: Seq<u8>)
    ensures
        base64_text(bytes).len() % 4 == 0,
        bytes.len() > 0 ==> base64_text(bytes).len() >= 4,
        forall|i: int| 0 <= i < base64_text(bytes).len() ==> is_plain(#[trigger] base64_text(bytes)[i]),
        quads_bytes(base64_text(bytes)) == Some(bytes),
    decreases bytes.len(),
{
    let text = base64_text(bytes);
    let none = Seq::<char>::empty();
    assert(quads_bytes(none) == Some(Seq::<u8>::empty()));
    if bytes.len() == 0 {
        assert(bytes =~= Seq::<u8>::empty());
    } else if bytes.len() == 1 {
        lemma_quad_of_one(bytes[0]);
        lemma_quads_step(text, seq![bytes[0]], none, Seq::empty());
        assert(text + none =~= text);
        assert(seq![bytes[0]] + Seq::<u8>::empty() =~= bytes);
    } else if bytes.len() == 2 {
        lemma_quad_of_two(bytes[0], bytes[1]);
        lemma_quads_step(text, seq![bytes[0], bytes[1]], none, Seq::empty());
        assert(text + none =~= text);
        assert(seq![bytes[0], bytes[1]] + Seq::<u8>::empty() =~= bytes);
    } else {
        lemma_quad_of_three(bytes[0], bytes[1], bytes[2]);
        lemma_base64_text_plain(bytes.skip(3));
        let tail = base64_text(bytes.skip(3));
        let quad = seq![
            sextet_char(bytes[0] as int / 4),
            sextet_char((bytes[0] as int % 4) * 16 + bytes[1] as int / 16),
            sextet_char((bytes[1] as int % 16) * 4 + bytes[2] as int / 64),
            sextet_char(bytes[2] as int % 64),
        ];
        lemma_quads_step(quad, seq![bytes[0], bytes[1], bytes[2]], tail, bytes.skip(3));
        assert(text == quad + tail);
        assert(seq![bytes[0], bytes[1], bytes[2]] + bytes.skip(3) =~= bytes);
    }
}

proof fn lemma_base64_text_shape(bytes: Seq<u8>)
    ensures
        base64_text(bytes).len() % 4 == 0,
        bytes.len() > 0 ==> base64_text(bytes).len() >= 4,
        all_base64(base64_text(bytes)),
        forall|i: int|
            0 <= i < base64_text(bytes).len() ==> !is_ascii_space(#[trigger] base64_text(bytes)[i]),
        quads_bytes(base64_text(bytes)) == Some(bytes),
{
    lemma_base64_text_plain(bytes);
    assert forall|i: int| 0 <= i < base64_text(bytes).len() implies is_base64_char(
        #[trigger] base64_text(bytes)[i],
    ) && !is_ascii_space(base64_text(bytes)[i]) by {
        assert(is_plain(base64_text(bytes)[i]));
    }
}

proof fn lemma_compact_keeps(s: Seq<char>)
    requires
        forall|i: int| 0 <= i < s.len() ==> !is_ascii_space(#[trigger] s[i]),
    ensures
        compact(s) == s,
    decreases s.len(),
{
    if s.len() > 0 {
        lemma_compact_keeps(s.drop_last());
        assert(s.drop_last().push(s.last()) =~= s);
    }
}

/// Two characters stand for the same six bits, one of them in the standard alphabet and the
/// other in it or in the one for addresses.
pub open spec fn same_in_either_alphabet(c: char, standard: char) -> bool {
    c == standard || (standard == '+' && c == '-') || (standard == '/' && c == '_')
}

/// A text is a standard one, but for the alphabet of its characters.
pub open spec fn in_either_alphabet(s: Seq<char>, standard: Seq<char>) -> bool {
    s.len() == standard.len() && forall|i: int|
        0 <= i < s.len() ==> same_in_either_alphabet(#[trigger] s[i], standard[i])
}

/// The standard base64 text of bytes without its padding.
pub open spec fn unpadded_text(bytes: Seq<u8>) -> Seq<char> {
    base64_text(bytes).take((4 * bytes.len() as int + 2) / 3)
}

/// A text is base64 for bytes: in the standard alphabet or the one for addresses, with
/// padding or without, and with white space anywhere.
pub open spec fn is_base64_of(text: Seq<char>, bytes: Seq<u8>) -> bool {
    in_either_alphabet(compact(text), base64_text(bytes)) || in_either_alphabet(
        compact(text),
        unpadded_text(bytes),
    )
}

proof fn lemma_either_alphabet_decodes(s: Seq<char>, standard: Seq<char>)
    requires
        in_either_alphabet(s, standard),
    ensures
        quads_bytes(s) == quads_bytes(standard),
        all_base64(standard) ==> all_base64(s),
    decreases s.len(),
{
    assert forall|i: int| 0 <= i < s.len() && is_base64_char(standard[i]) implies is_base64_char(
        #[trigger] s[i],
    ) by {
        assert(same_in_either_alphabet(s[i], standard[i]));
    }
    if s.len() >= 4 {
        assert(same_in_either_alphabet(s[0], standard[0]));
        assert(same_in_either_alphabet(s[1], standard[1]));
        assert(same_in_either_alphabet(s[2], standard[2]));
        assert(same_in_either_alphabet(s[3], standard[3]));
        let rest = s.skip(4);
        let standard_rest = standard.skip(4);
        assert forall|i: int| 0 <= i < rest.len() implies same_in_either_alphabet(
            #[trigger] rest[i],
            standard_rest[i],
        ) by {
            assert(rest[i] == s[i + 4]);
            assert(standard_rest[i] == standard[i + 4]);
        }
        lemma_either_alphabet_decodes(rest, standard_rest);
    }
}

/// What the text without padding leaves out is padding.
proof fn lemma_padding(bytes: Seq<u8>)
    ensures
        base64_text(bytes).len() == 4 * ((bytes.len() + 2) / 3),
        forall|i: int|
            (4 * bytes.len() as int + 2) / 3 <= i < base64_text(bytes).len()
                ==> #[trigger] base64_text(bytes)[i] == '=',
    decreases bytes.len(),
{
    if bytes.len() >= 3 {
        let tail = base64_text(bytes.skip(3));
        lemma_padding(bytes.skip(3));
        assert forall|i: int|
            (4 * bytes.len() as int + 2) / 3 <= i < base64_text(bytes).len() implies
            #[trigger] base64_text(bytes)[i] == '=' by {
            assert(base64_text(bytes)[i] == tail[i - 4]);
        }
    }
}

/// Decoding any base64 text of bytes gives the bytes back: whichever of the two alphabets it
/// is in, with padding or without, and with white space anywhere.
pub proof fn law_base64_gives_the_bytes_back(text: Seq<char>, bytes: Seq<u8>)
    requires
        bytes.len() > 0,
        is_base64_of(text, bytes),
    ensures
        base64_bytes(text) == Some(bytes),
{
    let s = compact(text);
    let standard = base64_text(bytes);
    lemma_base64_text_shape(bytes);
    lemma_padding(bytes);
    if in_either_alphabet(s, standard) {
        lemma_either_alphabet_decodes(s, standard);
    } else {
        let short = unpadded_text(bytes);
        assert(all_base64(short)) by {
            assert forall|i: int| 0 <= i < short.len() implies is_base64_char(
                #[trigger] short[i],
            ) by {
                assert(short[i] == standard[i]);
            }
        }
        lemma_either_alphabet_decodes(s, short);
        let full = padded(s);
        assert(full.len() == standard.len());
        assert forall|i: int| 0 <= i < full.len() implies same_in_either_alphabet(
            #[trigger] full[i],
            standard[i],
        ) by {
            if i < s.len() {
                assert(full[i] == s[i]);
                assert(short[i] == standard[i]);
                assert(same_in_either_alphabet(s[i], short[i]));
            } else {
                assert(full[i] == '=');
                assert(standard[i] == '=');
            }
        }
        lemma_either_alphabet_decodes(full, standard);
    }
}

/// The standard base64 text of bytes is decoded to them.
pub proof fn law_standard_base64_gives_the_bytes_back(bytes: Seq<u8>)
    requires
        bytes.len() > 0,
    ensures
        base64_bytes(base64_text(bytes)) == Some(bytes),
{
    lemma_base64_text_shape(bytes);
    lemma_compact_keeps(base64_text(bytes));
    law_base64_gives_the_bytes_back(base64_text(bytes), bytes);
}

/// A text that holds nothing but white space, or a character that base64 does not have, is
/// not decoded.
pub proof fn law_other_texts_are_not_decoded(text: Seq<char>)
    requires
        compact(text).len() == 0 || !all_base64(compact(text)),
    ensures
        base64_bytes(text) is None,
{
}

/// The base64 text has four characters for three bytes, and padding where bytes are left over.
proof fn lemma_base64_len(bytes: Seq<u8>)
    ensures
        base64_text(bytes).len() == 4 * ((bytes.len() + 2) / 3),
        bytes.len() % 3 != 0 ==> base64_text(bytes).contains('='),
    decreases bytes.len(),
{
    let text = base64_text(bytes);
    if bytes.len() == 1 || bytes.len() == 2 {
        assert(text[3] == '=');
    } else if bytes.len() >= 3 {
        let tail = base64_text(bytes.skip(3));
        lemma_base64_len(bytes.skip(3));
        if bytes.len() % 3 != 0 {
            let i = choose|i: int| 0 <= i < tail.len() && tail[i] == '=';
            assert(text[i + 4] == '=');
        }
    }
}

/// An image that comes as base64 under `imageBase64` in the value of a response is written
/// as it was. A text of fewer than sixteen characters must have one that is no letter or
/// digit, and one of fewer than eight is not taken for base64.
pub proof fn law_snapshot_writes_the_image(tree: JsonTree, bytes: Seq<u8>)
    requires
        bytes.len() >= 10 || (bytes.len() >= 4 && bytes.len() % 3 != 0) || (bytes.len() >= 6 && (
        base64_text(bytes).contains('+') || base64_text(bytes).contains('/'))),
        tree_get2(first_entry(tree), "value"@, "imageBase64"@) == Some(
            JsonTree::Text(base64_text(bytes)),
        ),
        tree_get(first_entry(tree), "code"@) matches Some(raw) ==> tree_int_exact(raw) is None
            || tree_int_exact(raw) == Some(0int),
    ensures
        snap_in(tree) == Ok::<Seq<u8>, ErrorModel>(bytes),
{
    let text = base64_text(bytes);
    lemma_base64_text_shape(bytes);
    lemma_compact_keeps(text);
    lemma_base64_len(bytes);
    assert(is_base64_char(text[0]) && is_base64_char(text[text.len() - 1]));
    assert(trim(text) == text);
    if starts_with(text, "data:"@) {
        reveal_strlit("data:");
        assert(text.subrange(0, 5)[4] == ':');
        assert(is_base64_char(text[4]));
    }
    assert(looks_like_base64_text(text));
    assert(text_bytes(text) == Some(bytes));
}

} // verus!
