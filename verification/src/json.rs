//! JSON values: reading them out of a text, searching them, writing them.
//!
//! Parsing and rendering are `serde_json`'s work. What it parsed is held as a
//! [`Json`] value, on which the searches are defined.
use crate::command::{command_name, CgiCommand};
use crate::error::{error_model, AppError, AppResult, ErrorKind, ErrorModel};
use crate::text::{
    join3, lower, lower_text, parse_i64_text, parse_signed, parse_u8_text, parse_unsigned, same_text,
    trim, trim_text,
};
use vstd::prelude::*;

verus! {

// ---------------------------------------------------------------- values

/// A JSON number: its value as an integer, where it is one in range, and its text.
#[derive(Debug, Clone, PartialEq, Eq)]
pub struct JsonNumber {
    pub unsigned: Option<u64>,
    pub signed: Option<i64>,
    pub text: String,
}

/// A JSON value. The members of an object stand in the order of their names.
#[derive(Debug, PartialEq, Eq)]
pub enum Json {
    Null,
    Bool(bool),
    Number(JsonNumber),
    Text(String),
    Array(Vec<Json>),
    Object(Vec<(String, Json)>),
}

/// A JSON value as a mathematical tree.
pub ghost enum JsonTree {
    Null,
    Bool(bool),
    Number { unsigned: Option<u64>, signed: Option<i64>, text: Seq<char> },
    Text(Seq<char>),
    Array(Seq<JsonTree>),
    Object(Seq<(Seq<char>, JsonTree)>),
}

/// The trees of a list of values.
pub open spec fn item_trees(items: Seq<Json>) -> Seq<JsonTree>
    decreases items,
{
    if items.len() == 0 {
        Seq::empty()
    } else {
        seq![json_tree(items[0])] + item_trees(items.drop_first())
    }
}

/// The trees of a list of members, each with its name.
pub open spec fn member_trees(members: Seq<(String, Json)>) -> Seq<(Seq<char>, JsonTree)>
    decreases members,
{
    if members.len() == 0 {
        Seq::empty()
    } else {
        seq![(members[0].0@, json_tree(members[0].1))] + member_trees(members.drop_first())
    }
}

/// The tree of a value.
pub open spec fn json_tree(value: Json) -> JsonTree
    decreases value,
{
    match value {
        Json::Null => JsonTree::Null,
        Json::Bool(flag) => JsonTree::Bool(flag),
        Json::Number(number) => JsonTree::Number {
            unsigned: number.unsigned,
            signed: number.signed,
            text: number.text@,
        },
        Json::Text(text) => JsonTree::Text(text@),
        Json::Array(items) => JsonTree::Array(item_trees(items@)),
        Json::Object(members) => JsonTree::Object(member_trees(members@)),
    }
}

impl View for Json {
    type V = JsonTree;

    open spec fn view(&self) -> JsonTree {
        json_tree(*self)
    }
}

pub proof fn lemma_item_trees(items: Seq<Json>)
    ensures
        item_trees(items).len() == items.len(),
        forall|i: int| 0 <= i < items.len() ==> #[trigger] item_trees(items)[i] == items[i]@,
    decreases items.len(),
{
    if items.len() > 0 {
        lemma_item_trees(items.drop_first());
        assert forall|i: int| 0 <= i < items.len() implies #[trigger] item_trees(items)[i]
            == items[i]@ by {
            if i > 0 {
                assert(items.drop_first()[i - 1] == items[i]);
            }
        }
    }
}

pub proof fn lemma_member_trees(members: Seq<(String, Json)>)
    ensures
        member_trees(members).len() == members.len(),
        forall|i: int|
            0 <= i < members.len() ==> #[trigger] member_trees(members)[i] == (
                members[i].0@,
                members[i].1@,
            ),
    decreases members.len(),
{
    if members.len() > 0 {
        lemma_member_trees(members.drop_first());
        assert forall|i: int| 0 <= i < members.len() implies #[trigger] member_trees(members)[i] == (
            members[i].0@,
            members[i].1@,
        ) by {
            if i > 0 {
                assert(members.drop_first()[i - 1] == members[i]);
            }
        }
    }
}

/// An optional value, taken by its view.
pub open spec fn option_model<T: View>(value: Option<T>) -> Option<T::V> {
    match value {
        Some(inner) => Some(inner@),
        None => None,
    }
}

// ---------------------------------------------------------------- serde_json

/// A value of `serde_json`.
#[verifier::external_type_specification]
#[verifier::external_body]
pub struct ExJsonValue(serde_json::Value);

/// The tree that a `serde_json` value holds.
pub uninterp spec fn value_tree(value: serde_json::Value) -> JsonTree;

/// What `serde_json::from_str` makes of a text: a tree, or the text of its error.
pub uninterp spec fn json_of_text(text: Seq<char>) -> Result<JsonTree, Seq<char>>;

/// What `serde_json::to_string` makes of a tree: a text, or the text of its error.
pub uninterp spec fn text_of_json(tree: JsonTree) -> Result<Seq<char>, Seq<char>>;

/// What the display of a `serde_json` value prints for a tree.
pub uninterp spec fn display_of_json(tree: JsonTree) -> Seq<char>;

/// The outermost level of a `serde_json` value.
pub enum JsonShape {
    Null,
    Bool(bool),
    Number(JsonNumber),
    Text(String),
    Array(Vec<serde_json::Value>),
    Object(Vec<(String, serde_json::Value)>),
}

/// The tree of which a shape is the outermost level.
pub open spec fn shape_tree(shape: JsonShape) -> JsonTree {
    match shape {
        JsonShape::Null => JsonTree::Null,
        JsonShape::Bool(flag) => JsonTree::Bool(flag),
        JsonShape::Number(number) => JsonTree::Number {
            unsigned: number.unsigned,
            signed: number.signed,
            text: number.text@,
        },
        JsonShape::Text(text) => JsonTree::Text(text@),
        JsonShape::Array(items) => JsonTree::Array(
            Seq::new(items@.len(), |i: int| value_tree(items@[i])),
        ),
        JsonShape::Object(members) => JsonTree::Object(
            Seq::new(members@.len(), |i: int| (members@[i].0@, value_tree(members@[i].1))),
        ),
    }
}

/// `serde_json::from_str`, for a `serde_json::Value`: a function of the text alone. An
/// error is taken by the text it displays.
#[verifier::external_body]
fn parse_value(text: &str) -> (r: Result<serde_json::Value, String>)
    ensures
        match r {
            Ok(value) => json_of_text(text@) == Ok::<JsonTree, Seq<char>>(value_tree(value)),
            Err(message) => json_of_text(text@) == Err::<JsonTree, Seq<char>>(message@),
        },
{
    serde_json::from_str::<serde_json::Value>(text).map_err(|error| error.to_string())
}

/// Takes a `serde_json::Value` apart by one level. A number is read with `as_u64`,
/// `as_i64` and its display.
#[verifier::external_body]
fn value_shape(value: serde_json::Value) -> (r: JsonShape)
    ensures
        shape_tree(r) == value_tree(value),
{
    match value {
        serde_json::Value::Null => JsonShape::Null,
        serde_json::Value::Bool(flag) => JsonShape::Bool(flag),
        serde_json::Value::Number(n) => JsonShape::Number(
            JsonNumber { unsigned: n.as_u64(), signed: n.as_i64(), text: n.to_string() },
        ),
        serde_json::Value::String(text) => JsonShape::Text(text),
        serde_json::Value::Array(items) => JsonShape::Array(items),
        serde_json::Value::Object(members) => JsonShape::Object(members.into_iter().collect()),
    }
}

/// `serde_json::to_string` of a value: a function of its tree. An error is taken by the
/// text it displays.
#[verifier::external_body]
fn render_value(value: &serde_json::Value) -> (r: Result<String, String>)
    ensures
        match r {
            Ok(text) => text_of_json(value_tree(*value)) == Ok::<Seq<char>, Seq<char>>(text@),
            Err(message) => text_of_json(value_tree(*value)) == Err::<Seq<char>, Seq<char>>(
                message@,
            ),
        },
{
    serde_json::to_string(value).map_err(|error| error.to_string())
}

/// The display of a `serde_json::Value`: a function of its tree.
#[verifier::external_body]
pub(crate) fn display_value(value: &serde_json::Value) -> (r: String)
    ensures
        r@ == display_of_json(value_tree(*value)),
{
    value.to_string()
}

/// The tree of a number that is not negative.
pub open spec fn unsigned_tree(n: u64) -> JsonTree {
    JsonTree::Number {
        unsigned: Some(n),
        signed: if n <= i64::MAX {
            Some(n as i64)
        } else {
            None
        },
        text: crate::text::dec(n as nat),
    }
}

/// The tree of an integer.
pub open spec fn signed_tree(n: i64) -> JsonTree {
    if n >= 0 {
        unsigned_tree(n as u64)
    } else {
        JsonTree::Number {
            unsigned: None,
            signed: Some(n),
            text: crate::text::dec_int(n as int),
        }
    }
}

/// `serde_json::Value::from` a `u64`: a number without a sign, printed in decimal.
#[verifier::external_body]
pub(crate) fn value_from_u64(n: u64) -> (r: serde_json::Value)
    ensures
        value_tree(r) == unsigned_tree(n),
{
    serde_json::Value::from(n)
}

/// `serde_json::Value::from` an `i64`: below zero a negative number, else as for a `u64`.
#[verifier::external_body]
pub(crate) fn value_from_i64(n: i64) -> (r: serde_json::Value)
    ensures
        value_tree(r) == signed_tree(n),
{
    serde_json::Value::from(n)
}

/// `serde_json::Value::from` a truth value.
#[verifier::external_body]
pub(crate) fn value_from_bool(flag: bool) -> (r: serde_json::Value)
    ensures
        value_tree(r) == JsonTree::Bool(flag),
{
    serde_json::Value::from(flag)
}

/// `serde_json::Value::from` a text.
#[verifier::external_body]
pub(crate) fn value_from_text(text: &str) -> (r: serde_json::Value)
    ensures
        value_tree(r) == JsonTree::Text(text@),
{
    serde_json::Value::from(text)
}

/// `serde_json::Value::from` a list of values.
#[verifier::external_body]
pub(crate) fn value_from_list(items: Vec<serde_json::Value>) -> (r: serde_json::Value)
    ensures
        value_tree(r) == JsonTree::Array(Seq::new(items@.len(), |i: int| value_tree(items@[i]))),
{
    serde_json::Value::from(items)
}

/// `serde_json::Value::from` the unit value: null.
#[verifier::external_body]
pub(crate) fn null_value() -> (r: serde_json::Value)
    ensures
        value_tree(r) == JsonTree::Null,
{
    serde_json::Value::from(())
}

/// `serde_json::Value::from` an empty `serde_json::Map`.
#[verifier::external_body]
pub(crate) fn empty_object() -> (r: serde_json::Value)
    ensures
        value_tree(r) == JsonTree::Object(Seq::empty()),
{
    serde_json::Value::from(serde_json::Map::new())
}

/// One name stands before another in the order of `str`.
pub open spec fn name_before(a: Seq<char>, b: Seq<char>) -> bool
    decreases a.len(),
{
    if b.len() == 0 {
        false
    } else if a.len() == 0 {
        true
    } else if a[0] != b[0] {
        a[0] < b[0]
    } else {
        name_before(a.drop_first(), b.drop_first())
    }
}

/// Members with one more: in the place of the member of that name, or else in order.
pub open spec fn put_member(
    members: Seq<(Seq<char>, JsonTree)>,
    name: Seq<char>,
    value: JsonTree,
) -> Seq<(Seq<char>, JsonTree)>
    decreases members.len(),
{
    if members.len() == 0 || name_before(name, members[0].0) {
        seq![(name, value)] + members
    } else if members[0].0 == name {
        seq![(name, value)] + members.drop_first()
    } else {
        seq![members[0]] + put_member(members.drop_first(), name, value)
    }
}

/// Assigning to a member of an object value by its name: `serde_json` keeps the members of
/// an object in a map ordered by name, so a member of that name is replaced, and a new one
/// goes to its place in the order.
#[verifier::external_body]
pub(crate) fn with_member(
    object: serde_json::Value,
    name: &str,
    value: serde_json::Value,
) -> (r: serde_json::Value)
    requires
        value_tree(object) is Object,
    ensures
        value_tree(r) == JsonTree::Object(
            put_member(value_tree(object)->Object_0, name@, value_tree(value)),
        ),
{
    let mut object = object;
    object[name] = value;
    object
}

/// Like [`with_member`], on an object tree.
pub open spec fn tree_with(object: JsonTree, name: Seq<char>, value: JsonTree) -> JsonTree {
    JsonTree::Object(put_member(object->Object_0, name, value))
}

/// The object without members.
pub open spec fn empty_tree() -> JsonTree {
    JsonTree::Object(Seq::empty())
}

// ---------------------------------------------------------------- reading

/// The library's copy of a `serde_json` value.
fn json_from_value(value: serde_json::Value) -> (r: Json)
    ensures
        r@ == value_tree(value),
    decreases value_tree(value),
{
    let ghost tree = value_tree(value);
    match value_shape(value) {
        JsonShape::Null => Json::Null,
        JsonShape::Bool(flag) => Json::Bool(flag),
        JsonShape::Number(number) => Json::Number(number),
        JsonShape::Text(text) => Json::Text(text),
        JsonShape::Array(items) => {
            let mut rest = items;
            let ghost all = rest@;
            let mut out: Vec<Json> = Vec::new();
            proof {
                assert(tree == JsonTree::Array(Seq::new(all.len(), |i: int| value_tree(all[i]))));
            }
            while rest.len() > 0
                invariant
                    tree == value_tree(value),
                    rest@.len() + out@.len() == all.len(),
                    rest@ == all.skip(out@.len() as int),
                    tree == JsonTree::Array(Seq::new(all.len(), |i: int| value_tree(all[i]))),
                    forall|i: int| 0 <= i < out@.len() ==> out@[i]@ == value_tree(all[i]),
                decreases rest.len(),
            {
                let next = rest.remove(0);
                proof {
                    assert(next == all[out@.len() as int]);
                    assert(tree->Array_0[out@.len() as int] == value_tree(next));
                    assert(decreases_to!(tree => tree->Array_0[out@.len() as int]));
                }
                out.push(json_from_value(next));
                proof {
                    assert(rest@ =~= all.skip(out@.len() as int));
                }
            }
            let ghost outs = out@;
            let result = Json::Array(out);
            proof {
                lemma_item_trees(outs);
                assert(result@ == JsonTree::Array(item_trees(outs)));
                assert(result@->Array_0 =~= tree->Array_0);
            }
            result
        },
        JsonShape::Object(members) => {
            let mut rest = members;
            let ghost all = rest@;
            let mut out: Vec<(String, Json)> = Vec::new();
            while rest.len() > 0
                invariant
                    tree == value_tree(value),
                    rest@.len() + out@.len() == all.len(),
                    rest@ == all.skip(out@.len() as int),
                    tree == JsonTree::Object(
                        Seq::new(all.len(), |i: int| (all[i].0@, value_tree(all[i].1))),
                    ),
                    forall|i: int|
                        0 <= i < out@.len() ==> (#[trigger] out@[i]).0@ == all[i].0@ && out@[i].1@
                            == value_tree(all[i].1),
                decreases rest.len(),
            {
                let next = rest.remove(0);
                proof {
                    assert(next == all[out@.len() as int]);
                    assert(tree->Object_0[out@.len() as int].1 == value_tree(next.1));
                    assert(decreases_to!(tree => tree->Object_0[out@.len() as int].1));
                }
                let (name, value) = next;
                out.push((name, json_from_value(value)));
                proof {
                    assert(rest@ =~= all.skip(out@.len() as int));
                }
            }
            let ghost outs = out@;
            let result = Json::Object(out);
            proof {
                lemma_member_trees(outs);
                assert(result@ == JsonTree::Object(member_trees(outs)));
                assert(result@->Object_0 =~= tree->Object_0);
            }
            result
        },
    }
}

/// The JSON value that a text holds, or why it holds none.
pub fn parse_json(text: &str) -> (r: Result<Json, String>)
    ensures
        match r {
            Ok(value) => json_of_text(text@) == Ok::<JsonTree, Seq<char>>(value@),
            Err(message) => json_of_text(text@) == Err::<JsonTree, Seq<char>>(message@),
        },
{
    match parse_value(text) {
        Ok(value) => Ok(json_from_value(value)),
        Err(message) => Err(message),
    }
}

/// The value in the response of a command, or the error that the response is no JSON.
pub open spec fn response_tree(command: CgiCommand, raw_json: Seq<char>) -> Result<
    JsonTree,
    ErrorModel,
> {
    match json_of_text(raw_json) {
        Ok(tree) => Ok(tree),
        Err(message) => Err(
            error_model(
                ErrorKind::UnexpectedResponse,
                "failed to parse "@ + command_name(command) + " response JSON: "@ + message,
            ),
        ),
    }
}

pub fn parse_response_json(raw_json: &str, command: CgiCommand) -> (r: AppResult<Json>)
    ensures
        crate::error::result_model(r) == response_tree(command, raw_json@),
{
    match parse_json(raw_json) {
        Ok(value) => Ok(value),
        Err(message) => {
            let mut text = join3("failed to parse ", command.as_str(), " response JSON: ");
            text.append(message.as_str());
            Err(AppError::with_message(ErrorKind::UnexpectedResponse, text))
        },
    }
}

/// The text with its JSON rendered anew, or the text itself where it holds no JSON.
pub open spec fn normalized_text(text: Seq<char>) -> Seq<char> {
    match json_of_text(text) {
        Ok(tree) => match text_of_json(tree) {
            Ok(rendered) => rendered,
            Err(_) => text,
        },
        Err(_) => text,
    }
}

pub fn normalize_text(text: String) -> (r: String)
    ensures
        r@ == normalized_text(text@),
{
    match parse_value(text.as_str()) {
        Ok(value) => match render_value(&value) {
            Ok(rendered) => rendered,
            Err(_) => text,
        },
        Err(_) => text,
    }
}

/// The text of a value, or why it has none.
pub fn render_json(value: &serde_json::Value) -> (r: Result<String, String>)
    ensures
        match r {
            Ok(text) => text_of_json(value_tree(*value)) == Ok::<Seq<char>, Seq<char>>(text@),
            Err(message) => text_of_json(value_tree(*value)) == Err::<Seq<char>, Seq<char>>(
                message@,
            ),
        },
{
    render_value(value)
}

/// The members of an object, put one after another into an object.
pub open spec fn put_members(
    object: JsonTree,
    members: Seq<(Seq<char>, JsonTree)>,
) -> JsonTree
    decreases members.len(),
{
    if members.len() == 0 {
        object
    } else {
        put_members(tree_with(object, members[0].0, members[0].1), members.drop_first())
    }
}

/// An object with the payload of a request: its members where it is an object, else the
/// payload as a member of its own. A payload that is no JSON is a text.
pub open spec fn tree_with_payload(object: JsonTree, payload: Seq<char>) -> JsonTree {
    match json_of_text(payload) {
        Ok(JsonTree::Object(members)) => put_members(object, members),
        Ok(tree) => tree_with(object, "payload"@, tree),
        Err(_) => tree_with(object, "payload"@, JsonTree::Text(payload)),
    }
}

pub(crate) fn with_payload(object: serde_json::Value, payload: &str) -> (r: serde_json::Value)
    requires
        value_tree(object) is Object,
    ensures
        value_tree(r) == tree_with_payload(value_tree(object), payload@),
        value_tree(r) is Object,
{
    match parse_value(payload) {
        Ok(value) => {
            let ghost tree = value_tree(value);
            let kept = copy_value(&value);
            match value_shape(value) {
                JsonShape::Object(members) => put_all(object, members),
                _ => with_member(object, "payload", kept),
            }
        },
        Err(_) => with_member(object, "payload", value_from_text(payload)),
    }
}

/// The object has no members.
pub(crate) fn is_empty_object(object: &serde_json::Value) -> (r: bool)
    ensures
        r == (value_tree(*object) == empty_tree()),
{
    match value_shape(copy_value(object)) {
        JsonShape::Object(members) => {
            proof {
                let trees = Seq::new(
                    members@.len(),
                    |i: int| (members@[i].0@, value_tree(members@[i].1)),
                );
                assert(value_tree(*object) == JsonTree::Object(trees));
                if members@.len() == 0 {
                    assert(trees =~= Seq::empty());
                } else {
                    assert(trees.len() > 0);
                }
            }
            members.len() == 0
        },
        _ => false,
    }
}

/// `serde_json::Value::clone` copies a value.
#[verifier::external_body]
pub(crate) fn copy_value(value: &serde_json::Value) -> (r: serde_json::Value)
    ensures
        value_tree(r) == value_tree(*value),
{
    value.clone()
}

fn put_all(object: serde_json::Value, members: Vec<(String, serde_json::Value)>) -> (r:
    serde_json::Value)
    requires
        value_tree(object) is Object,
    ensures
        value_tree(r) is Object,
        value_tree(r) == put_members(
            value_tree(object),
            Seq::new(members@.len(), |i: int| (members@[i].0@, value_tree(members@[i].1))),
        ),
    decreases members@.len(),
{
    let ghost trees = Seq::new(
        members@.len(),
        |i: int| (members@[i].0@, value_tree(members@[i].1)),
    );
    let mut rest = members;
    if rest.len() == 0 {
        return object;
    }
    let (name, value) = rest.remove(0);
    proof {
        assert(trees.drop_first() =~= Seq::new(
            rest@.len(),
            |i: int| (rest@[i].0@, value_tree(rest@[i].1)),
        ));
    }
    put_all(with_member(object, name.as_str(), value), rest)
}

// ---------------------------------------------------------------- members

/// The member of that name.
pub open spec fn member_named(members: Seq<(Seq<char>, JsonTree)>, name: Seq<char>) -> Option<
    JsonTree,
>
    decreases members.len(),
{
    if members.len() == 0 {
        None
    } else if members[0].0 == name {
        Some(members[0].1)
    } else {
        member_named(members.drop_first(), name)
    }
}

/// The member of that name, where the tree is an object that has one.
pub open spec fn tree_get(tree: JsonTree, name: Seq<char>) -> Option<JsonTree> {
    match tree {
        JsonTree::Object(members) => member_named(members, name),
        _ => None,
    }
}

/// The member of a member.
pub open spec fn tree_get2(tree: JsonTree, first: Seq<char>, second: Seq<char>) -> Option<JsonTree> {
    match tree_get(tree, first) {
        Some(inner) => tree_get(inner, second),
        None => None,
    }
}

/// The tree in `found`, or else `other`.
pub open spec fn or_tree(found: Option<JsonTree>, other: JsonTree) -> JsonTree {
    match found {
        Some(tree) => tree,
        None => other,
    }
}

/// The text of a text value.
pub open spec fn tree_text(tree: JsonTree) -> Option<Seq<char>> {
    match tree {
        JsonTree::Text(text) => Some(text),
        _ => None,
    }
}

/// An integer: a number, or a text that is one to the letter.
pub open spec fn tree_int_exact(tree: JsonTree) -> Option<int> {
    match tree {
        JsonTree::Number { signed, .. } => match signed {
            Some(n) => Some(n as int),
            None => None,
        },
        JsonTree::Text(text) => parse_signed(text),
        _ => None,
    }
}

/// An integer: a number, or a text that is one but for white space around it.
pub open spec fn tree_int(tree: JsonTree) -> Option<int> {
    match tree {
        JsonTree::Number { signed, .. } => match signed {
            Some(n) => Some(n as int),
            None => None,
        },
        JsonTree::Text(text) => parse_signed(trim(text)),
        _ => None,
    }
}

/// A number from 0 to 255, or a text that is one but for white space around it.
pub open spec fn tree_u8(tree: JsonTree) -> Option<int> {
    match tree {
        JsonTree::Number { unsigned, .. } => match unsigned {
            Some(n) => if n <= 255 {
                Some(n as int)
            } else {
                None
            },
            None => None,
        },
        JsonTree::Text(text) => match parse_unsigned(trim(text), 255) {
            Some(n) => Some(n as int),
            None => None,
        },
        _ => None,
    }
}

/// An `i64` result holds the integer that a specification names.
pub open spec fn is_int(r: Option<i64>, expected: Option<int>) -> bool {
    match r {
        Some(n) => expected == Some(n as int),
        None => expected is None,
    }
}

/// A reference result holds the tree that a specification names.
pub open spec fn is_tree(r: Option<&Json>, expected: Option<JsonTree>) -> bool {
    match r {
        Some(value) => expected == Some(value@),
        None => expected is None,
    }
}

/// The word means yes or no.
pub open spec fn yes_no(word: Seq<char>) -> Option<bool> {
    let w = lower(trim(word));
    if w == "1"@ || w == "true"@ || w == "yes"@ || w == "enabled"@ || w == "on"@ {
        Some(true)
    } else if w == "0"@ || w == "false"@ || w == "no"@ || w == "disabled"@ || w == "off"@ {
        Some(false)
    } else {
        None
    }
}

pub fn parse_yes_no(word: &str) -> (r: Option<bool>)
    ensures
        r == yes_no(word@),
{
    let trimmed = trim_text(word);
    let lowered = lower_text(trimmed.as_str());
    let w = lowered.as_str();
    if same_text(w, "1") || same_text(w, "true") || same_text(w, "yes") || same_text(w, "enabled")
        || same_text(w, "on") {
        Some(true)
    } else if same_text(w, "0") || same_text(w, "false") || same_text(w, "no") || same_text(
        w,
        "disabled",
    ) || same_text(w, "off") {
        Some(false)
    } else {
        None
    }
}

/// A flag whose number counts as set above zero.
pub open spec fn tree_enabled(tree: JsonTree) -> Option<bool> {
    match tree {
        JsonTree::Bool(flag) => Some(flag),
        JsonTree::Number { signed, .. } => match signed {
            Some(n) => Some(n > 0),
            None => None,
        },
        JsonTree::Text(text) => yes_no(text),
        _ => None,
    }
}

/// A flag whose number counts as set unless it is zero.
pub open spec fn tree_flag(tree: JsonTree) -> Option<bool> {
    match tree {
        JsonTree::Bool(flag) => Some(flag),
        JsonTree::Number { signed, .. } => match signed {
            Some(n) => Some(n != 0),
            None => None,
        },
        JsonTree::Text(text) => yes_no(text),
        _ => None,
    }
}

/// The entry of a response that belongs to a command: the first of a list with its name
/// under `cmd`, or the response itself.
pub open spec fn command_payload(tree: JsonTree, command: CgiCommand) -> Option<JsonTree> {
    match tree {
        JsonTree::Array(items) => first_named(items, command),
        JsonTree::Object(_) => if is_named(tree, command) {
            Some(tree)
        } else {
            None
        },
        _ => None,
    }
}

/// The value has the command's name under `cmd`.
pub open spec fn is_named(tree: JsonTree, command: CgiCommand) -> bool {
    tree_get(tree, "cmd"@) == Some(JsonTree::Text(command_name(command)))
}

pub open spec fn first_named(items: Seq<JsonTree>, command: CgiCommand) -> Option<JsonTree>
    decreases items.len(),
{
    if items.len() == 0 {
        None
    } else if is_named(items[0], command) {
        Some(items[0])
    } else {
        first_named(items.drop_first(), command)
    }
}

impl Json {
    /// The member of that name, where the value is an object that has one.
    pub fn get(&self, name: &str) -> (r: Option<&Json>)
        ensures
            is_tree(r, tree_get(self@, name@)),
    {
        match self {
            Json::Object(members) => {
                proof {
                    lemma_member_trees(members@);
                    assert(member_trees(members@).skip(0) =~= member_trees(members@));
                }
                let mut i: usize = 0;
                while i < members.len()
                    invariant
                        i <= members.len(),
                        self@ == JsonTree::Object(member_trees(members@)),
                        member_trees(members@).len() == members.len(),
                        forall|k: int|
                            0 <= k < members.len() ==> #[trigger] member_trees(members@)[k] == (
                                members@[k].0@,
                                members@[k].1@,
                            ),
                        tree_get(self@, name@) == member_named(
                            member_trees(members@).skip(i as int),
                            name@,
                        ),
                    decreases members.len() - i,
                {
                    proof {
                        let rest = member_trees(members@).skip(i as int);
                        assert(rest[0] == member_trees(members@)[i as int]);
                        assert(rest.drop_first() =~= member_trees(members@).skip(i + 1));
                    }
                    if same_text(members[i].0.as_str(), name) {
                        return Some(&members[i].1);
                    }
                    i = i + 1;
                }
                None
            },
            _ => None,
        }
    }

    pub fn get2(&self, first: &str, second: &str) -> (r: Option<&Json>)
        ensures
            is_tree(r, tree_get2(self@, first@, second@)),
    {
        match self.get(first) {
            Some(inner) => inner.get(second),
            None => None,
        }
    }

    pub fn as_str(&self) -> (r: Option<&str>)
        ensures
            match r {
                Some(text) => tree_text(self@) == Some(text@),
                None => tree_text(self@) is None,
            },
    {
        match self {
            Json::Text(text) => Some(text.as_str()),
            _ => None,
        }
    }

    pub fn as_int_exact(&self) -> (r: Option<i64>)
        ensures
            is_int(r, tree_int_exact(self@)),
    {
        match self {
            Json::Number(number) => number.signed,
            Json::Text(text) => parse_i64_text(text.as_str()),
            _ => None,
        }
    }

    pub fn as_int(&self) -> (r: Option<i64>)
        ensures
            is_int(r, tree_int(self@)),
    {
        match self {
            Json::Number(number) => number.signed,
            Json::Text(text) => parse_i64_text(trim_text(text.as_str()).as_str()),
            _ => None,
        }
    }

    pub fn as_byte(&self) -> (r: Option<u8>)
        ensures
            match r {
                Some(n) => tree_u8(self@) == Some(n as int),
                None => tree_u8(self@) is None,
            },
    {
        match self {
            Json::Number(number) => match number.unsigned {
                Some(n) => if n <= 255 {
                    Some(n as u8)
                } else {
                    None
                },
                None => None,
            },
            Json::Text(text) => parse_u8_text(trim_text(text.as_str()).as_str()),
            _ => None,
        }
    }

    pub fn as_enabled(&self) -> (r: Option<bool>)
        ensures
            r == tree_enabled(self@),
    {
        match self {
            Json::Bool(flag) => Some(*flag),
            Json::Number(number) => match number.signed {
                Some(n) => Some(n > 0),
                None => None,
            },
            Json::Text(text) => parse_yes_no(text.as_str()),
            _ => None,
        }
    }

    pub fn as_flag(&self) -> (r: Option<bool>)
        ensures
            r == tree_flag(self@),
    {
        match self {
            Json::Bool(flag) => Some(*flag),
            Json::Number(number) => match number.signed {
                Some(n) => Some(n != 0),
                None => None,
            },
            Json::Text(text) => parse_yes_no(text.as_str()),
            _ => None,
        }
    }
}

/// The value has the command's name under `cmd`.
fn has_command_name(value: &Json, command: CgiCommand) -> (r: bool)
    ensures
        r == is_named(value@, command),
{
    match value.get("cmd") {
        Some(inner) => match inner {
            Json::Text(text) => same_text(text.as_str(), command.as_str()),
            _ => false,
        },
        None => false,
    }
}

pub fn find_command_payload<'a>(value: &'a Json, command: CgiCommand) -> (r: Option<&'a Json>)
    ensures
        is_tree(r, command_payload(value@, command)),
{
    match value {
        Json::Array(items) => {
            proof {
                lemma_item_trees(items@);
                assert(item_trees(items@).skip(0) =~= item_trees(items@));
            }
            let mut i: usize = 0;
            while i < items.len()
                invariant
                    i <= items.len(),
                    value@ == JsonTree::Array(item_trees(items@)),
                    item_trees(items@).len() == items.len(),
                    forall|k: int|
                        0 <= k < items.len() ==> #[trigger] item_trees(items@)[k] == items@[k]@,
                    command_payload(value@, command) == first_named(
                        item_trees(items@).skip(i as int),
                        command,
                    ),
                decreases items.len() - i,
            {
                proof {
                    let rest = item_trees(items@).skip(i as int);
                    assert(rest[0] == item_trees(items@)[i as int]);
                    assert(rest.drop_first() =~= item_trees(items@).skip(i + 1));
                }
                if has_command_name(&items[i], command) {
                    return Some(&items[i]);
                }
                i = i + 1;
            }
            None
        },
        Json::Object(_) => if has_command_name(value, command) {
            Some(value)
        } else {
            None
        },
        _ => None,
    }
}

/// The entry of a response that belongs to a command, or else the whole response.
pub open spec fn payload_or_all(tree: JsonTree, command: CgiCommand) -> JsonTree {
    or_tree(command_payload(tree, command), tree)
}

pub fn payload_or_whole<'a>(value: &'a Json, command: CgiCommand) -> (r: &'a Json)
    ensures
        r@ == payload_or_all(value@, command),
{
    match find_command_payload(value, command) {
        Some(payload) => payload,
        None => value,
    }
}

// ---------------------------------------------------------------- searches

/// A question put to an object.
pub trait Probe {
    type Out: View;

    /// The answer that an object gives.
    spec fn hit(&self, object: JsonTree) -> Option<<Self::Out as View>::V>;

    fn probe(&self, object: &Json) -> (r: Option<Self::Out>)
        ensures
            option_model(r) == self.hit(object@),
    ;
}

/// The answer of the first object that gives one: an object before what it holds, and what
/// it holds in order.
pub open spec fn search_tree<P: Probe>(probe: P, tree: JsonTree) -> Option<<P::Out as View>::V>
    decreases tree,
{
    match tree {
        JsonTree::Array(items) => search_items(probe, items),
        JsonTree::Object(members) => match probe.hit(tree) {
            Some(found) => Some(found),
            None => search_members(probe, members),
        },
        _ => None,
    }
}

pub open spec fn search_items<P: Probe>(probe: P, items: Seq<JsonTree>) -> Option<
    <P::Out as View>::V,
>
    decreases items,
{
    if items.len() == 0 {
        None
    } else {
        match search_tree(probe, items[0]) {
            Some(found) => Some(found),
            None => search_items(probe, items.drop_first()),
        }
    }
}

pub open spec fn search_members<P: Probe>(
    probe: P,
    members: Seq<(Seq<char>, JsonTree)>,
) -> Option<<P::Out as View>::V>
    decreases members,
{
    if members.len() == 0 {
        None
    } else {
        match search_tree(probe, members[0].1) {
            Some(found) => Some(found),
            None => search_members(probe, members.drop_first()),
        }
    }
}

/// Looks through a value for the first object that answers.
pub fn search<P: Probe>(probe: &P, value: &Json) -> (r: Option<P::Out>)
    ensures
        option_model(r) == search_tree(*probe, value@),
    decreases value,
{
    match value {
        Json::Array(items) => {
            proof {
                lemma_item_trees(items@);
                assert(item_trees(items@).skip(0) =~= item_trees(items@));
            }
            let mut i: usize = 0;
            while i < items.len()
                invariant
                    i <= items.len(),
                    *value == Json::Array(*items),
                    value@ == JsonTree::Array(item_trees(items@)),
                    item_trees(items@).len() == items.len(),
                    forall|k: int|
                        0 <= k < items.len() ==> #[trigger] item_trees(items@)[k] == items@[k]@,
                    search_tree(*probe, value@) == search_items(
                        *probe,
                        item_trees(items@).skip(i as int),
                    ),
                decreases items.len() - i,
            {
                proof {
                    let rest = item_trees(items@).skip(i as int);
                    assert(rest[0] == item_trees(items@)[i as int]);
                    assert(rest.drop_first() =~= item_trees(items@).skip(i + 1));
                    assert(decreases_to!(value => items@[i as int]));
                }
                let found = search(probe, &items[i]);
                if found.is_some() {
                    return found;
                }
                i = i + 1;
            }
            None
        },
        Json::Object(members) => {
            let found = probe.probe(value);
            if found.is_some() {
                return found;
            }
            proof {
                lemma_member_trees(members@);
                assert(member_trees(members@).skip(0) =~= member_trees(members@));
            }
            let mut i: usize = 0;
            while i < members.len()
                invariant
                    i <= members.len(),
                    *value == Json::Object(*members),
                    value@ == JsonTree::Object(member_trees(members@)),
                    member_trees(members@).len() == members.len(),
                    forall|k: int|
                        0 <= k < members.len() ==> #[trigger] member_trees(members@)[k] == (
                            members@[k].0@,
                            members@[k].1@,
                        ),
                    search_tree(*probe, value@) == search_members(
                        *probe,
                        member_trees(members@).skip(i as int),
                    ),
                decreases members.len() - i,
            {
                proof {
                    let rest = member_trees(members@).skip(i as int);
                    assert(rest[0] == member_trees(members@)[i as int]);
                    assert(rest.drop_first() =~= member_trees(members@).skip(i + 1));
                    assert(decreases_to!(value => members@[i as int].1));
                }
                let found = search(probe, &members[i].1);
                if found.is_some() {
                    return found;
                }
                i = i + 1;
            }
            None
        },
        _ => None,
    }
}

/// Two names are the same but for their capitals.
pub open spec fn same_name(a: Seq<char>, b: Seq<char>) -> bool {
    lower(a) == lower(b)
}

pub fn is_same_name(a: &str, b: &str) -> (r: bool)
    ensures
        r == same_name(a@, b@),
{
    same_text(lower_text(a).as_str(), lower_text(b).as_str())
}

} // verus!
