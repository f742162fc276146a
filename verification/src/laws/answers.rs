//! Answers of the camera, as trees, and what is found in them.
use crate::command::CgiCommand;
use crate::json::{
    command_payload, first_named, json_of_text, member_named, put_member, search_tree, tree_get,
    tree_with, JsonTree, Probe,
};
use vstd::prelude::*;

verus! {

/// A text is an answer of one entry, which carries the name of its command.
pub open spec fn is_answer(raw_json: Seq<char>, name: Seq<char>, entry: JsonTree) -> bool {
    &&& json_of_text(raw_json) == Ok::<JsonTree, Seq<char>>(JsonTree::Array(seq![entry]))
    &&& tree_get(entry, "cmd"@) == Some(JsonTree::Text(name))
}

/// A value is a number that is an integer.
pub open spec fn is_integer(tree: JsonTree, n: int) -> bool {
    tree matches JsonTree::Number { signed: Some(m), .. } && m == n
}

/// A value is a number that is not negative.
pub open spec fn is_count(tree: JsonTree, n: int) -> bool {
    tree matches JsonTree::Number { unsigned: Some(m), .. } && m == n
}

/// An entry carries no code, or the code zero.
pub open spec fn is_accepted(entry: JsonTree) -> bool {
    tree_get(entry, "code"@) matches Some(code) ==> is_integer(code, 0)
}

pub proof fn lemma_answer(entry: JsonTree, command: CgiCommand)
    requires
        tree_get(entry, "cmd"@) == Some(JsonTree::Text(crate::command::command_name(command))),
    ensures
        command_payload(JsonTree::Array(seq![entry]), command) == Some(entry),
{
    assert(seq![entry][0] == entry);
    assert(first_named(seq![entry], command) == Some(entry));
}

/// A member that was put into an object is found there under its name, and the others are
/// found as before.
pub proof fn law_members_are_found(object: JsonTree, name: Seq<char>, value: JsonTree, other: Seq<char>)
    requires
        object is Object,
    ensures
        tree_get(tree_with(object, name, value), name) == Some(value),
        other != name ==> tree_get(tree_with(object, name, value), other) == tree_get(
            object,
            other,
        ),
        tree_with(object, name, value) is Object,
{
    lemma_put_is_found(object->Object_0, name, value, other);
}

proof fn lemma_put_is_found(
    members: Seq<(Seq<char>, JsonTree)>,
    name: Seq<char>,
    value: JsonTree,
    other: Seq<char>,
)
    ensures
        member_named(put_member(members, name, value), name) == Some(value),
        other != name ==> member_named(put_member(members, name, value), other) == member_named(
            members,
            other,
        ),
    decreases members.len(),
{
    let after = put_member(members, name, value);
    if members.len() == 0 || crate::json::name_before(name, members[0].0) {
        assert(after[0] == (name, value));
        assert(after.drop_first() =~= members);
    } else if members[0].0 == name {
        assert(after[0] == (name, value));
        assert(after.drop_first() =~= members.drop_first());
    } else {
        lemma_put_is_found(members.drop_first(), name, value, other);
        assert(after[0] == members[0]);
        assert(after.drop_first() =~= put_member(members.drop_first(), name, value));
    }
}

/// An object that answers is the first that is asked.
pub proof fn lemma_asked_first<P: Probe>(probe: P, object: JsonTree)
    requires
        object is Object,
        probe.hit(object) is Some,
    ensures
        search_tree(probe, object) == probe.hit(object),
{
}

/// Of a list, the items are asked in order.
pub proof fn lemma_asked_in_order<P: Probe>(probe: P, items: Seq<JsonTree>, k: int)
    requires
        0 <= k < items.len(),
        forall|j: int| 0 <= j < k ==> search_tree(probe, #[trigger] items[j]) is None,
        search_tree(probe, items[k]) is Some,
    ensures
        search_tree(probe, JsonTree::Array(items)) == search_tree(probe, items[k]),
    decreases items.len(),
{
    lemma_items_in_order(probe, items, k);
}

proof fn lemma_items_in_order<P: Probe>(probe: P, items: Seq<JsonTree>, k: int)
    requires
        0 <= k < items.len(),
        forall|j: int| 0 <= j < k ==> search_tree(probe, #[trigger] items[j]) is None,
        search_tree(probe, items[k]) is Some,
    ensures
        crate::json::search_items(probe, items) == search_tree(probe, items[k]),
    decreases items.len(),
{
    if k > 0 {
        let rest = items.drop_first();
        assert(search_tree(probe, items[0]) is None);
        assert forall|j: int| 0 <= j < k - 1 implies search_tree(probe, #[trigger] rest[j]) is None by {
            assert(rest[j] == items[j + 1]);
        }
        assert(rest[k - 1] == items[k]);
        lemma_items_in_order(probe, rest, k - 1);
    }
}

/// A value that holds nothing else.
pub open spec fn is_plain_value(tree: JsonTree) -> bool {
    !(tree is Array) && !(tree is Object)
}

/// An object of plain values that does not answer is searched in vain.
pub proof fn lemma_asked_in_vain<P: Probe>(probe: P, members: Seq<(Seq<char>, JsonTree)>)
    requires
        probe.hit(JsonTree::Object(members)) is None,
        forall|i: int| 0 <= i < members.len() ==> is_plain_value(#[trigger] members[i].1),
    ensures
        search_tree(probe, JsonTree::Object(members)) is None,
{
    lemma_plain_members(probe, members);
}

proof fn lemma_plain_members<P: Probe>(probe: P, members: Seq<(Seq<char>, JsonTree)>)
    requires
        forall|i: int| 0 <= i < members.len() ==> is_plain_value(#[trigger] members[i].1),
    ensures
        crate::json::search_members(probe, members) is None,
    decreases members.len(),
{
    if members.len() > 0 {
        let rest = members.drop_first();
        assert(is_plain_value(members[0].1));
        assert(search_tree(probe, members[0].1) is None);
        assert forall|i: int| 0 <= i < rest.len() implies is_plain_value(#[trigger] rest[i].1) by {
            assert(rest[i] == members[i + 1]);
        }
        lemma_plain_members(probe, rest);
    }
}

} // verus!
