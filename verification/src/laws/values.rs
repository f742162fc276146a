//! Values in an answer, and numbers in a text.
use crate::command::{command_name, CgiCommand};
use crate::json::{
    command_payload, is_named, payload_or_all, same_name, tree_enabled, tree_flag, tree_get,
    tree_int, tree_int_exact, tree_u8, yes_no, JsonTree,
};
use crate::laws::answers::{is_count, is_integer};
use crate::laws::documents::law_white_space_is_trimmed;
use crate::reolink::device::about_channel;
use crate::reolink::network::port_at;
use crate::reolink::ptz::fits_channel;
use crate::text::{
    dec, dec_int, digits_value, is_digit, is_space, law_dec_int_reads_back, law_dec_reads_back,
    lower, parse_signed, parse_unsigned, trim,
};
use vstd::prelude::*;

verus! {

/// The words for yes and no differ.
proof fn lemma_yes_words_differ()
    ensures
        "true"@ != "1"@,
        "yes"@ != "1"@,
        "yes"@ != "true"@,
        "enabled"@ != "1"@,
        "enabled"@ != "true"@,
        "enabled"@ != "yes"@,
        "on"@ != "1"@,
        "on"@ != "true"@,
        "on"@ != "yes"@,
        "on"@ != "enabled"@,
        "0"@ != "1"@,
        "0"@ != "true"@,
        "0"@ != "yes"@,
        "0"@ != "enabled"@,
        "0"@ != "on"@,
        "false"@ != "1"@,
        "false"@ != "true"@,
        "false"@ != "yes"@,
        "false"@ != "enabled"@,
        "false"@ != "on"@,
        "false"@ != "0"@,
        "no"@ != "1"@,
        "no"@ != "true"@,
        "no"@ != "yes"@,
        "no"@ != "enabled"@,
        "no"@ != "on"@,
        "no"@ != "0"@,
        "no"@ != "false"@,
        "disabled"@ != "1"@,
        "disabled"@ != "true"@,
        "disabled"@ != "yes"@,
        "disabled"@ != "enabled"@,
        "disabled"@ != "on"@,
        "disabled"@ != "0"@,
        "disabled"@ != "false"@,
        "disabled"@ != "no"@,
        "off"@ != "1"@,
        "off"@ != "true"@,
        "off"@ != "yes"@,
        "off"@ != "enabled"@,
        "off"@ != "on"@,
        "off"@ != "0"@,
        "off"@ != "false"@,
        "off"@ != "no"@,
        "off"@ != "disabled"@,
{
    reveal_strlit("1");
    reveal_strlit("true");
    reveal_strlit("yes");
    reveal_strlit("enabled");
    reveal_strlit("on");
    reveal_strlit("0");
    reveal_strlit("false");
    reveal_strlit("no");
    reveal_strlit("disabled");
    reveal_strlit("off");
    assert("true"@.len() != "1"@.len());
    assert("yes"@.len() != "1"@.len());
    assert("yes"@.len() != "true"@.len());
    assert("enabled"@.len() != "1"@.len());
    assert("enabled"@.len() != "true"@.len());
    assert("enabled"@.len() != "yes"@.len());
    assert("on"@.len() != "1"@.len());
    assert("on"@.len() != "true"@.len());
    assert("on"@.len() != "yes"@.len());
    assert("on"@.len() != "enabled"@.len());
    assert("0"@[0] != "1"@[0]);
    assert("0"@.len() != "true"@.len());
    assert("0"@.len() != "yes"@.len());
    assert("0"@.len() != "enabled"@.len());
    assert("0"@.len() != "on"@.len());
    assert("false"@.len() != "1"@.len());
    assert("false"@.len() != "true"@.len());
    assert("false"@.len() != "yes"@.len());
    assert("false"@.len() != "enabled"@.len());
    assert("false"@.len() != "on"@.len());
    assert("false"@.len() != "0"@.len());
    assert("no"@.len() != "1"@.len());
    assert("no"@.len() != "true"@.len());
    assert("no"@.len() != "yes"@.len());
    assert("no"@.len() != "enabled"@.len());
    assert("no"@[0] != "on"@[0]);
    assert("no"@.len() != "0"@.len());
    assert("no"@.len() != "false"@.len());
    assert("disabled"@.len() != "1"@.len());
    assert("disabled"@.len() != "true"@.len());
    assert("disabled"@.len() != "yes"@.len());
    assert("disabled"@.len() != "enabled"@.len());
    assert("disabled"@.len() != "on"@.len());
    assert("disabled"@.len() != "0"@.len());
    assert("disabled"@.len() != "false"@.len());
    assert("disabled"@.len() != "no"@.len());
    assert("off"@.len() != "1"@.len());
    assert("off"@.len() != "true"@.len());
    assert("off"@[0] != "yes"@[0]);
    assert("off"@.len() != "enabled"@.len());
    assert("off"@.len() != "on"@.len());
    assert("off"@.len() != "0"@.len());
    assert("off"@.len() != "false"@.len());
    assert("off"@.len() != "no"@.len());
    assert("off"@.len() != "disabled"@.len());
}


// ---------------------------------------------------------------- numbers in a text

/// A digit more makes ten times as much and that digit besides.
pub proof fn law_digits_have_their_places(s: Seq<char>, c: char)
    requires
        is_digit(c),
    ensures
        digits_value(s.push(c)) == 10 * digits_value(s) + (c as int - '0' as int),
        digits_value(Seq::empty()) == 0,
{
    assert(s.push(c).drop_last() =~= s);
}

/// A number is read with or without a plus, up to its limit, and nothing else is a number.
pub proof fn law_numbers_in_a_text(n: nat, max: nat, s: Seq<char>, i: int)
    ensures
        n <= max ==> parse_unsigned(dec(n), max) == Some(n) && parse_unsigned(
            seq!['+'] + dec(n),
            max,
        ) == Some(n),
        n > max ==> parse_unsigned(dec(n), max) is None,
        s.len() == 0 ==> parse_unsigned(s, max) is None && parse_signed(s) is None,
        0 < i < s.len() && !is_digit(s[i]) ==> parse_unsigned(s, max) is None && parse_signed(
            s,
        ) is None,
        s.len() > 0 && !is_digit(s[0]) && s[0] != '+' ==> parse_unsigned(s, max) is None,
        s.len() > 0 && !is_digit(s[0]) && s[0] != '+' && s[0] != '-' ==> parse_signed(s) is None,
{
    law_dec_reads_back(n);
    assert(is_digit(dec(n)[0]));
    assert((seq!['+'] + dec(n)).drop_first() =~= dec(n));
    if 0 < i < s.len() && !is_digit(s[i]) {
        assert(!is_digit(s.drop_first()[i - 1]));
    }
}

/// A number is written without zeros before it.
pub proof fn law_numbers_are_written_short(n: nat)
    ensures
        n > 0 ==> dec(n)[0] != '0',
        n < 10 ==> dec(n).len() == 1,
        n >= 10 ==> dec(n).len() == dec(n / 10).len() + 1,
        dec_int(-(n as int)).len() == dec(n).len() + if n > 0 {
            1int
        } else {
            0int
        },
        n > 0 ==> dec_int(-(n as int))[0] == '-' && dec_int(-(n as int)).skip(1) =~= dec(n),
        dec_int(n as int) == dec(n),
    decreases n,
{
    if n >= 10 {
        law_numbers_are_written_short(n / 10);
        law_dec_reads_back(n / 10);
    }
}

// ---------------------------------------------------------------- values

/// A number stands for itself, and so does a text that is one, with white space around it or
/// without.
pub proof fn law_integers_are_read(value: JsonTree, n: i64, before: Seq<char>, after: Seq<char>)
    requires
        forall|i: int| 0 <= i < before.len() ==> is_space(#[trigger] before[i]),
        forall|i: int| 0 <= i < after.len() ==> is_space(#[trigger] after[i]),
    ensures
        is_integer(value, n as int) ==> tree_int(value) == Some(n as int) && tree_int_exact(value)
            == Some(n as int),
        tree_int(JsonTree::Text(before + dec_int(n as int) + after)) == Some(n as int),
        tree_int_exact(JsonTree::Text(dec_int(n as int))) == Some(n as int),
        tree_int(JsonTree::Null) is None && tree_int(JsonTree::Bool(true)) is None,
{
    law_dec_int_reads_back(n);
    let size = if n < 0 {
        (-(n as int)) as nat
    } else {
        n as nat
    };
    law_dec_reads_back(size);
    let text = dec_int(n as int);
    assert(is_digit(dec(size).last()));
    assert(is_digit(dec(size)[0]));
    assert(text.last() == dec(size).last());
    law_white_space_is_trimmed(before, text, after);
}

/// The numbers of channels and positions: from zero to two hundred and fifty-five.
pub proof fn law_small_numbers_are_read(value: JsonTree, n: nat)
    ensures
        is_count(value, n as int) && n <= 255 ==> tree_u8(value) == Some(n as int),
        is_count(value, n as int) && n > 255 ==> tree_u8(value) is None,
        n <= 255 ==> tree_u8(JsonTree::Text(dec(n))) == Some(n as int),
        n > 255 ==> tree_u8(JsonTree::Text(dec(n))) is None,
{
    law_dec_reads_back(n);
    let text = dec(n);
    assert(is_digit(text[0]) && is_digit(text.last()));
    law_white_space_is_trimmed(Seq::empty(), text, Seq::empty());
    assert(Seq::<char>::empty() + text + Seq::<char>::empty() =~= text);
}

/// The words for yes and no, whatever their capitals and the white space around them.
pub proof fn law_yes_and_no(raw: Seq<char>)
    ensures
        ({
            let word = lower(trim(raw));
            &&& yes_no(raw) == Some(true) <==> word == "1"@ || word == "true"@ || word == "yes"@
                || word == "enabled"@ || word == "on"@
            &&& yes_no(raw) == Some(false) <==> word == "0"@ || word == "false"@ || word == "no"@
                || word == "disabled"@ || word == "off"@
        }),
{
    lemma_yes_words_differ();
}

/// What enables: a number above zero, or yes. A flag of the settings is set by any number but
/// zero.
pub proof fn law_flags_are_read(value: JsonTree, n: int, raw: Seq<char>, on: bool)
    ensures
        is_integer(value, n) ==> tree_enabled(value) == Some(n > 0) && tree_flag(value) == Some(
            n != 0,
        ),
        tree_enabled(JsonTree::Bool(on)) == Some(on) && tree_flag(JsonTree::Bool(on)) == Some(on),
        yes_no(raw) == Some(on) ==> tree_enabled(JsonTree::Text(raw)) == Some(on) && tree_flag(
            JsonTree::Text(raw),
        ) == Some(on),
        yes_no(raw) is None ==> tree_enabled(JsonTree::Text(raw)) is None,
        tree_enabled(JsonTree::Null) is None && tree_flag(JsonTree::Null) is None,
{
}

/// A port is a number from zero to 65535, and any other number is none.
pub proof fn law_ports_are_read(part: JsonTree, name: Seq<char>, value: JsonTree, n: int)
    requires
        tree_get(part, name) == Some(value),
        is_integer(value, n),
    ensures
        0 <= n <= 65535 ==> port_at(part, name) == Some(n as u16),
        n < 0 || n > 65535 ==> port_at(part, name) is None,
{
}

/// Letters are made small, and nothing else is changed.
pub proof fn law_letters_are_made_small(s: Seq<char>, i: int)
    requires
        0 <= i < s.len(),
    ensures
        lower(s).len() == s.len(),
        'A' <= s[i] <= 'Z' ==> 'a' <= lower(s)[i] <= 'z' && lower(s)[i] as int - 'a' as int
            == s[i] as int - 'A' as int,
        !('A' <= s[i] <= 'Z') ==> lower(s)[i] == s[i],
        lower(lower(s)) =~= lower(s),
        same_name(s, lower(s)),
{
}

// ---------------------------------------------------------------- entries

/// Of several entries the first that carries the name of the command is taken.
pub proof fn law_entry_of_the_command(items: Seq<JsonTree>, command: CgiCommand, k: int)
    requires
        0 <= k < items.len(),
        tree_get(items[k], "cmd"@) == Some(JsonTree::Text(command_name(command))),
        forall|i: int|
            0 <= i < k ==> tree_get(#[trigger] items[i], "cmd"@) != Some(
                JsonTree::Text(command_name(command)),
            ),
    ensures
        command_payload(JsonTree::Array(items), command) == Some(items[k]),
        payload_or_all(JsonTree::Array(items), command) == items[k],
    decreases k,
{
    if k > 0 {
        let rest = items.drop_first();
        assert(!is_named(items[0], command));
        assert forall|i: int| 0 <= i < k - 1 implies tree_get(#[trigger] rest[i], "cmd"@) != Some(
            JsonTree::Text(command_name(command)),
        ) by {
            assert(rest[i] == items[i + 1]);
        }
        law_entry_of_the_command(rest, command, k - 1);
    }
}

/// An answer that is one object is its own entry, whether or not it carries a name.
pub proof fn law_objects_are_their_own_entry(tree: JsonTree, command: CgiCommand)
    requires
        tree is Object,
    ensures
        payload_or_all(tree, command) == tree,
{
}

/// An object is about a channel by any of the names for it, and one that names none fits all.
pub proof fn law_objects_of_a_channel(tree: JsonTree, channel: u8, other: u8)
    requires
        other != channel,
    ensures
        (tree_get(tree, "channel"@) matches Some(raw) && is_count(raw, channel as int))
            ==> fits_channel(tree, channel) && about_channel(tree, channel),
        (tree_get(tree, "channelId"@) matches Some(raw) && is_count(raw, channel as int))
            ==> fits_channel(tree, channel) && about_channel(tree, channel),
        (tree_get(tree, "channelNo"@) matches Some(raw) && is_count(raw, channel as int))
            ==> fits_channel(tree, channel) && about_channel(tree, channel),
        (tree_get(tree, "id"@) matches Some(raw) && is_count(raw, channel as int))
            ==> about_channel(tree, channel),
        tree_get(tree, "channel"@) is None && tree_get(tree, "channelId"@) is None && tree_get(
            tree,
            "channelNo"@,
        ) is None ==> fits_channel(tree, channel),
        (tree_get(tree, "channel"@) matches Some(raw) && is_count(raw, other as int)) && tree_get(
            tree,
            "channelId"@,
        ) is None && tree_get(tree, "channelNo"@) is None ==> !fits_channel(tree, channel) && (
        tree_get(tree, "id"@) is None ==> !about_channel(tree, channel)),
        (tree_get(tree, "channelNo"@) matches Some(raw) && is_count(raw, other as int)) && tree_get(
            tree,
            "channelId"@,
        ) is None && tree_get(tree, "channel"@) is None ==> !fits_channel(tree, channel),
        tree_get(tree, "channel"@) is None && tree_get(tree, "channelId"@) is None && tree_get(
            tree,
            "channelNo"@,
        ) is None && tree_get(tree, "id"@) is None ==> !about_channel(tree, channel),
{
}

/// The settings of the ports stand under their name, in either way of writing it, or where no
/// such name is, in the value itself.
pub proof fn law_place_of_the_settings(payload: JsonTree, value: JsonTree, part: JsonTree)
    requires
        tree_get(payload, "value"@) == Some(value),
    ensures
        tree_get(value, "NetPort"@) == Some(part) ==> crate::reolink::network::net_port_part(payload)
            == part,
        tree_get(value, "NetPort"@) is None && tree_get(value, "netPort"@) == Some(part)
            ==> crate::reolink::network::net_port_part(payload) == part,
        tree_get(value, "NetPort"@) is None && tree_get(value, "netPort"@) is None
            ==> crate::reolink::network::net_port_part(payload) == value,
{
}

/// An object is the entry of the command whose name it carries, and of no other.
pub proof fn law_named_objects_are_entries(tree: JsonTree, command: CgiCommand)
    requires
        tree is Object,
    ensures
        tree_get(tree, "cmd"@) == Some(JsonTree::Text(command_name(command))) ==> command_payload(
            tree,
            command,
        ) == Some(tree),
        tree_get(tree, "cmd"@) is None ==> command_payload(tree, command) is None,
        tree_get(tree, "cmd"@) matches Some(JsonTree::Text(other)) && other != command_name(command)
            ==> command_payload(tree, command) is None,
{
}

} // verus!
