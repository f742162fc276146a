//! What is said of the camera: whether a channel is online, and what kind of camera it is.
use crate::command::{CgiCommand, ResponseModel};
use crate::error::ErrorModel;
use crate::exchange::{single_step, StepModel};
use crate::json::{same_name, tree_get, tree_get2, JsonTree};
use crate::laws::answers::{
    is_answer, is_count, is_integer, is_plain_value, lemma_answer, lemma_asked_first,
    lemma_asked_in_order, lemma_asked_in_vain,
};
use crate::model::ChannelStatus;
use crate::reolink::device::{
    ability_of, about_channel, channel_of, detected, detects, device_of, enables, field_named,
    items_detect, object_online, text_among, OnlineOf, TextField,
};
use crate::text::{lower, trim};
use vstd::prelude::*;

verus! {

/// The words for yes and no differ.
proof fn lemma_online_words_differ()
    ensures
        "true"@ != "1"@,
        "online"@ != "1"@,
        "online"@ != "true"@,
        "yes"@ != "1"@,
        "yes"@ != "true"@,
        "yes"@ != "online"@,
        "enabled"@ != "1"@,
        "enabled"@ != "true"@,
        "enabled"@ != "online"@,
        "enabled"@ != "yes"@,
        "0"@ != "1"@,
        "0"@ != "true"@,
        "0"@ != "online"@,
        "0"@ != "yes"@,
        "0"@ != "enabled"@,
        "false"@ != "1"@,
        "false"@ != "true"@,
        "false"@ != "online"@,
        "false"@ != "yes"@,
        "false"@ != "enabled"@,
        "false"@ != "0"@,
        "offline"@ != "1"@,
        "offline"@ != "true"@,
        "offline"@ != "online"@,
        "offline"@ != "yes"@,
        "offline"@ != "enabled"@,
        "offline"@ != "0"@,
        "offline"@ != "false"@,
        "no"@ != "1"@,
        "no"@ != "true"@,
        "no"@ != "online"@,
        "no"@ != "yes"@,
        "no"@ != "enabled"@,
        "no"@ != "0"@,
        "no"@ != "false"@,
        "no"@ != "offline"@,
        "disabled"@ != "1"@,
        "disabled"@ != "true"@,
        "disabled"@ != "online"@,
        "disabled"@ != "yes"@,
        "disabled"@ != "enabled"@,
        "disabled"@ != "0"@,
        "disabled"@ != "false"@,
        "disabled"@ != "offline"@,
        "disabled"@ != "no"@,
{
    reveal_strlit("1");
    reveal_strlit("true");
    reveal_strlit("online");
    reveal_strlit("yes");
    reveal_strlit("enabled");
    reveal_strlit("0");
    reveal_strlit("false");
    reveal_strlit("offline");
    reveal_strlit("no");
    reveal_strlit("disabled");
    assert("true"@.len() != "1"@.len());
    assert("online"@.len() != "1"@.len());
    assert("online"@.len() != "true"@.len());
    assert("yes"@.len() != "1"@.len());
    assert("yes"@.len() != "true"@.len());
    assert("yes"@.len() != "online"@.len());
    assert("enabled"@.len() != "1"@.len());
    assert("enabled"@.len() != "true"@.len());
    assert("enabled"@.len() != "online"@.len());
    assert("enabled"@.len() != "yes"@.len());
    assert("0"@[0] != "1"@[0]);
    assert("0"@.len() != "true"@.len());
    assert("0"@.len() != "online"@.len());
    assert("0"@.len() != "yes"@.len());
    assert("0"@.len() != "enabled"@.len());
    assert("false"@.len() != "1"@.len());
    assert("false"@.len() != "true"@.len());
    assert("false"@.len() != "online"@.len());
    assert("false"@.len() != "yes"@.len());
    assert("false"@.len() != "enabled"@.len());
    assert("false"@.len() != "0"@.len());
    assert("offline"@.len() != "1"@.len());
    assert("offline"@.len() != "true"@.len());
    assert("offline"@.len() != "online"@.len());
    assert("offline"@.len() != "yes"@.len());
    assert("offline"@[0] != "enabled"@[0]);
    assert("offline"@.len() != "0"@.len());
    assert("offline"@.len() != "false"@.len());
    assert("no"@.len() != "1"@.len());
    assert("no"@.len() != "true"@.len());
    assert("no"@.len() != "online"@.len());
    assert("no"@.len() != "yes"@.len());
    assert("no"@.len() != "enabled"@.len());
    assert("no"@.len() != "0"@.len());
    assert("no"@.len() != "false"@.len());
    assert("no"@.len() != "offline"@.len());
    assert("disabled"@.len() != "1"@.len());
    assert("disabled"@.len() != "true"@.len());
    assert("disabled"@.len() != "online"@.len());
    assert("disabled"@.len() != "yes"@.len());
    assert("disabled"@.len() != "enabled"@.len());
    assert("disabled"@.len() != "0"@.len());
    assert("disabled"@.len() != "false"@.len());
    assert("disabled"@.len() != "offline"@.len());
    assert("disabled"@.len() != "no"@.len());
}


/// A member says that something is online: as a flag, as a number that is not zero, or as
/// a word.
pub open spec fn says(value: JsonTree, online: bool) -> bool {
    ||| value == JsonTree::Bool(online)
    ||| online && exists|n: int| n != 0 && #[trigger] is_integer(value, n)
    ||| !online && is_integer(value, 0)
    ||| value matches JsonTree::Text(text) && is_word_for(lower(trim(text)), online)
}

pub open spec fn is_word_for(word: Seq<char>, online: bool) -> bool {
    if online {
        word == "1"@ || word == "true"@ || word == "online"@ || word == "yes"@ || word
            == "enabled"@
    } else {
        word == "0"@ || word == "false"@ || word == "offline"@ || word == "no"@ || word
            == "disabled"@
    }
}

/// An entry of a list that speaks of another channel.
pub open spec fn is_of_another(item: JsonTree, channel: u8) -> bool {
    &&& item matches JsonTree::Object(members) && forall|i: int|
        0 <= i < members.len() ==> is_plain_value(#[trigger] members[i].1)
    &&& tree_get(item, "channel"@) matches Some(raw) && exists|n: int|
        n != channel && #[trigger] is_count(raw, n)
    &&& tree_get(item, "channelId"@) is None
    &&& tree_get(item, "channelNo"@) is None
    &&& tree_get(item, "id"@) is None
}

/// The entry of a list that speaks of the channel.
pub open spec fn is_of(item: JsonTree, channel: u8) -> bool {
    item is Object && (tree_get(item, "channel"@) matches Some(raw) && is_count(
        raw,
        channel as int,
    ))
}

/// The member by which an entry says whether it is online: the first of these names.
pub open spec fn says_by(item: JsonTree, online: bool) -> bool {
    ||| tree_get(item, "online"@) matches Some(value) && says(value, online)
    ||| tree_get(item, "online"@) is None && (tree_get(item, "isOnline"@) matches Some(value)
        && says(value, online))
    ||| tree_get(item, "online"@) is None && tree_get(item, "isOnline"@) is None && (tree_get(
        item,
        "status"@,
    ) matches Some(value) && says(value, online))
    ||| tree_get(item, "online"@) is None && tree_get(item, "isOnline"@) is None && tree_get(
        item,
        "status"@,
    ) is None && (tree_get(item, "state"@) matches Some(value) && says(value, online))
    ||| tree_get(item, "online"@) is None && tree_get(item, "isOnline"@) is None && tree_get(
        item,
        "status"@,
    ) is None && tree_get(item, "state"@) is None && (tree_get(item, "enable"@) matches Some(value)
        && says(value, online))
}

proof fn lemma_says(value: JsonTree, online: bool)
    requires
        says(value, online),
    ensures
        crate::reolink::device::online_value(value) == Some(online),
{
    lemma_online_words_differ();
}

proof fn lemma_says_by(item: JsonTree, online: bool)
    requires
        says_by(item, online),
    ensures
        object_online(item) == Some(online),
{
    if tree_get(item, "online"@) is Some {
        lemma_says(tree_get(item, "online"@)->0, online);
    } else if tree_get(item, "isOnline"@) is Some {
        lemma_says(tree_get(item, "isOnline"@)->0, online);
    } else if tree_get(item, "status"@) is Some {
        lemma_says(tree_get(item, "status"@)->0, online);
    } else if tree_get(item, "state"@) is Some {
        lemma_says(tree_get(item, "state"@)->0, online);
    } else {
        lemma_says(tree_get(item, "enable"@)->0, online);
    }
}

/// What a list of channels says of one of them: online where its entry says 1 or true,
/// offline where it says 0 or false, whatever the entries of other channels say.
pub proof fn law_online_is_what_the_entry_says(
    channel: u8,
    raw_json: Seq<char>,
    entry: JsonTree,
    members: Seq<(Seq<char>, JsonTree)>,
    m: int,
    items: Seq<JsonTree>,
    k: int,
    online: bool,
)
    requires
        is_answer(raw_json, "GetChannelStatus"@, entry),
        tree_get(entry, "value"@) == Some(JsonTree::Object(members)),
        0 <= m < members.len(),
        members[m].1 == JsonTree::Array(items),
        forall|i: int| 0 <= i < m ==> is_plain_value(#[trigger] members[i].1),
        !about_channel(JsonTree::Object(members), channel),
        0 <= k < items.len(),
        forall|i: int| 0 <= i < k ==> is_of_another(#[trigger] items[i], channel),
        is_of(items[k], channel),
        says_by(items[k], online),
    ensures
        channel_of(channel, raw_json) == Ok::<ChannelStatus, ErrorModel>(
            ChannelStatus { channel, online },
        ),
        single_step(
            crate::command::request_model(
                CgiCommand::GetChannelStatus,
                crate::command::channel_params(channel),
            ),
            seq![
                Ok(
                    ResponseModel { command: CgiCommand::GetChannelStatus, raw_json },
                ),
            ],
            |raw: Seq<char>| channel_of(channel, raw),
        ) == StepModel::Done(Ok::<ChannelStatus, ErrorModel>(ChannelStatus { channel, online })),
{
    let probe = OnlineOf { channel };
    lemma_answer(entry, CgiCommand::GetChannelStatus);
    assert forall|i: int| 0 <= i < k implies crate::json::search_tree(probe, #[trigger] items[i]) is None by {
        assert(is_of_another(items[i], channel));
        assert(!about_channel(items[i], channel));
        lemma_asked_in_vain(probe, items[i]->Object_0);
    }
    lemma_says_by(items[k], online);
    lemma_asked_first(probe, items[k]);
    lemma_asked_in_order(probe, items, k);
    lemma_members_in_order(probe, members, m);
    let reply = Ok::<ResponseModel, ErrorModel>(
        ResponseModel { command: CgiCommand::GetChannelStatus, raw_json },
    );
    assert(seq![reply][0] == reply);
}

proof fn lemma_members_in_order(probe: OnlineOf, members: Seq<(Seq<char>, JsonTree)>, m: int)
    requires
        0 <= m < members.len(),
        forall|i: int| 0 <= i < m ==> is_plain_value(#[trigger] members[i].1),
        crate::json::search_tree(probe, members[m].1) is Some,
    ensures
        crate::json::search_members(probe, members) == crate::json::search_tree(
            probe,
            members[m].1,
        ),
    decreases m,
{
    if m > 0 {
        let rest = members.drop_first();
        assert(is_plain_value(members[0].1));
        assert(crate::json::search_tree(probe, members[0].1) is None);
        assert forall|i: int| 0 <= i < m - 1 implies is_plain_value(#[trigger] rest[i].1) by {
            assert(rest[i] == members[i + 1]);
        }
        assert(rest[m - 1] == members[m]);
        lemma_members_in_order(probe, rest, m - 1);
    }
}

/// The camera is asked about the channel that was given.
pub proof fn law_channel_status_is_asked_for(channel: u8)
    ensures
        single_step(
            crate::command::request_model(
                CgiCommand::GetChannelStatus,
                crate::command::channel_params(channel),
            ),
            Seq::empty(),
            |raw: Seq<char>| channel_of(channel, raw),
        ) matches StepModel::Send(request) && request.command == CgiCommand::GetChannelStatus
            && request.params.channel == Some(channel) && request.params.user_name is None
            && request.params.payload is None,
{
}

// ---------------------------------------------------------------- the device

pub open spec fn is_model_name(name: Seq<char>) -> bool {
    same_name(name, "model"@) || same_name(name, "name"@)
}

pub open spec fn is_firmware_name(name: Seq<char>) -> bool {
    same_name(name, "firmware"@) || same_name(name, "firmVer"@) || same_name(name, "version"@)
        || same_name(name, "buildVersion"@)
}

pub open spec fn is_serial_name(name: Seq<char>) -> bool {
    same_name(name, "serial"@) || same_name(name, "serialNo"@) || same_name(
        name,
        "serialNumber"@,
    ) || same_name(name, "uid"@)
}

/// The first member with such a name is this one, and it is that text, with something in it
/// but for white space around it.
pub open spec fn is_first_text(
    members: Seq<(Seq<char>, JsonTree)>,
    named: spec_fn(Seq<char>) -> bool,
    k: int,
    text: Seq<char>,
) -> bool {
    &&& 0 <= k < members.len()
    &&& named(members[k].0)
    &&& members[k].1 == JsonTree::Text(text)
    &&& trim(text).len() > 0
    &&& forall|j: int| 0 <= j < k ==> !named(#[trigger] members[j].0)
}

pub proof fn lemma_text_is_found(
    members: Seq<(Seq<char>, JsonTree)>,
    field: TextField,
    named: spec_fn(Seq<char>) -> bool,
    k: int,
    text: Seq<char>,
)
    requires
        is_first_text(members, named, k, text),
        forall|name: Seq<char>| #[trigger] named(name) <==> field_named(field, name),
    ensures
        crate::reolink::device::text_by_keys(JsonTree::Object(members), field) == Some(trim(text)),
{
    lemma_text_among(members, field, named, k, text);
    lemma_asked_first(field, JsonTree::Object(members));
}

proof fn lemma_text_among(
    members: Seq<(Seq<char>, JsonTree)>,
    field: TextField,
    named: spec_fn(Seq<char>) -> bool,
    k: int,
    text: Seq<char>,
)
    requires
        is_first_text(members, named, k, text),
        forall|name: Seq<char>| #[trigger] named(name) <==> field_named(field, name),
    ensures
        text_among(members, field) == Some(trim(text)),
    decreases k,
{
    assert(named(members[0].0) <==> field_named(field, members[0].0));
    if k > 0 {
        let rest = members.drop_first();
        assert(!named(members[0].0));
        assert forall|j: int| 0 <= j < k - 1 implies !named(#[trigger] rest[j].0) by {
            assert(rest[j] == members[j + 1]);
        }
        assert(rest[k - 1] == members[k]);
        lemma_text_among(rest, field, named, k - 1, text);
    }
}

/// The model, the firmware and the serial number are each read from the member that is
/// named for it.
pub proof fn law_device_is_what_the_camera_says(
    raw_json: Seq<char>,
    entry: JsonTree,
    members: Seq<(Seq<char>, JsonTree)>,
    model: (int, Seq<char>),
    firmware: (int, Seq<char>),
    serial: (int, Seq<char>),
)
    requires
        is_answer(raw_json, "GetDevInfo"@, entry),
        tree_get2(entry, "value"@, "DevInfo"@) == Some(JsonTree::Object(members)),
        is_first_text(members, |name: Seq<char>| is_model_name(name), model.0, model.1),
        is_first_text(members, |name: Seq<char>| is_firmware_name(name), firmware.0, firmware.1),
        is_first_text(members, |name: Seq<char>| is_serial_name(name), serial.0, serial.1),
    ensures
        device_of(raw_json) matches Ok(device) && device.model == trim(model.1) && device.firmware
            == trim(firmware.1) && device.serial_number == trim(serial.1),
{
    lemma_answer(entry, CgiCommand::GetDevInfo);
    lemma_text_is_found(
        members,
        TextField::Model,
        |name: Seq<char>| is_model_name(name),
        model.0,
        model.1,
    );
    lemma_text_is_found(
        members,
        TextField::Firmware,
        |name: Seq<char>| is_firmware_name(name),
        firmware.0,
        firmware.1,
    );
    lemma_text_is_found(
        members,
        TextField::Serial,
        |name: Seq<char>| is_serial_name(name),
        serial.0,
        serial.1,
    );
}

// ---------------------------------------------------------------- abilities

/// A command that stands in a list by its name is supported, and so is one that stands in an
/// object with a permission that is not zero.
pub proof fn law_named_commands_are_supported(
    user_name: Seq<char>,
    raw_json: Seq<char>,
    items: Seq<JsonTree>,
    k: int,
    command: CgiCommand,
)
    requires
        crate::json::json_of_text(raw_json) == Ok::<JsonTree, Seq<char>>(JsonTree::Array(items)),
        forall|i: int| 0 <= i < items.len() ==> #[trigger] items[i] is Text,
        0 <= k < items.len(),
        items[k] == JsonTree::Text(crate::command::command_name(command)),
        crate::reolink::device::known_commands().contains(command),
    ensures
        ability_of(user_name, raw_json) matches Ok(ability) && ability.user_name == user_name
            && ability.supported_commands.contains(command),
{
    let tree = JsonTree::Array(items);
    lemma_no_answer(items, CgiCommand::GetAbility);
    lemma_item_detected(items, k, command);
    let known = crate::reolink::device::known_commands();
    let at = choose|i: int| 0 <= i < known.len() && known[i] == command;
    lemma_detected_is_listed(tree, known, at);
}

proof fn lemma_detected_is_listed(tree: JsonTree, commands: Seq<CgiCommand>, at: int)
    requires
        0 <= at < commands.len(),
        detects(tree, commands[at]),
    ensures
        detected(tree, commands).contains(commands[at]),
        detected(tree, commands).len() > 0,
    decreases commands.len(),
{
    let before = detected(tree, commands.drop_last());
    if at < commands.len() - 1 {
        lemma_detected_is_listed(tree, commands.drop_last(), at);
        let i = choose|i: int| 0 <= i < before.len() && before[i] == commands[at];
        assert(detected(tree, commands)[i] == commands[at]);
    } else {
        assert(detected(tree, commands)[before.len() as int] == commands[at]);
    }
}

proof fn lemma_no_answer(items: Seq<JsonTree>, command: CgiCommand)
    requires
        forall|i: int| 0 <= i < items.len() ==> #[trigger] items[i] is Text,
    ensures
        crate::json::first_named(items, command) is None,
    decreases items.len(),
{
    if items.len() > 0 {
        let rest = items.drop_first();
        assert(items[0] is Text);
        assert forall|i: int| 0 <= i < rest.len() implies #[trigger] rest[i] is Text by {
            assert(rest[i] == items[i + 1]);
        }
        lemma_no_answer(rest, command);
    }
}

proof fn lemma_item_detected(items: Seq<JsonTree>, k: int, command: CgiCommand)
    requires
        0 <= k < items.len(),
        detects(items[k], command),
    ensures
        items_detect(items, command),
        detects(JsonTree::Array(items), command),
    decreases k,
{
    if k > 0 {
        assert(items.drop_first()[k - 1] == items[k]);
        lemma_item_detected(items.drop_first(), k - 1, command);
    }
}

/// An object that names a command under `cmd` supports it exactly when its permission is
/// more than zero, or it has none.
pub proof fn law_permission_decides(item: JsonTree, command: CgiCommand, permission: int)
    requires
        item matches JsonTree::Object(members) && forall|i: int|
            0 <= i < members.len() ==> (#[trigger] members[i].1 is Number || members[i].0 == "cmd"@),
        item matches JsonTree::Object(members) && forall|i: int|
            0 <= i < members.len() ==> !crate::reolink::device::names_command(
                #[trigger] members[i].0,
                command,
            ),
        tree_get(item, "cmd"@) == Some(JsonTree::Text(crate::command::command_name(command))),
        tree_get(item, "permit"@) matches Some(raw) && is_integer(raw, permission),
        permission > 0,
    ensures
        detects(item, command),
{
}

/// A permission of zero, or of false, withholds what it stands beside, and one that is more
/// grants it.
pub proof fn law_permissions_are_read(item: JsonTree, value: JsonTree)
    requires
        tree_get(item, "permit"@) == Some(value),
    ensures
        value == JsonTree::Bool(true) ==> enables(item),
        value == JsonTree::Bool(false) ==> !enables(item),
        is_integer(value, 0) ==> !enables(item),
        forall|n: int| n > 0 && #[trigger] is_integer(value, n) ==> enables(item),
{
}

/// A member that is named for a command supports it by what it says itself.
pub proof fn law_values_enable(value: JsonTree)
    ensures
        enables(JsonTree::Bool(true)),
        !enables(JsonTree::Bool(false)),
        is_integer(value, 0) ==> !enables(value),
        forall|n: int| n > 0 && #[trigger] is_integer(value, n) ==> enables(value),
{
}

/// Where an answer is a list of names, what is supported is what is named there, and nothing
/// else.
pub proof fn law_only_named_commands_are_supported(
    user_name: Seq<char>,
    raw_json: Seq<char>,
    items: Seq<JsonTree>,
    command: CgiCommand,
)
    requires
        crate::json::json_of_text(raw_json) == Ok::<JsonTree, Seq<char>>(JsonTree::Array(items)),
        forall|i: int| 0 <= i < items.len() ==> #[trigger] items[i] is Text,
        command != CgiCommand::GetChannelStatus,
        forall|i: int|
            0 <= i < items.len() ==> #[trigger] items[i] != JsonTree::Text(
                crate::command::command_name(command),
            ),
    ensures
        ability_of(user_name, raw_json) matches Ok(ability) ==> ability.user_name == user_name
            && !ability.supported_commands.contains(command),
{
    lemma_no_answer(items, CgiCommand::GetAbility);
    lemma_not_detected(items, command);
    crate::reolink::device::law_ability_lists_what_was_detected(
        user_name,
        JsonTree::Array(items),
        command,
    );
}

proof fn lemma_not_detected(items: Seq<JsonTree>, command: CgiCommand)
    requires
        command != CgiCommand::GetChannelStatus,
        forall|i: int| 0 <= i < items.len() ==> #[trigger] items[i] is Text,
        forall|i: int|
            0 <= i < items.len() ==> #[trigger] items[i] != JsonTree::Text(
                crate::command::command_name(command),
            ),
    ensures
        !items_detect(items, command),
    decreases items.len(),
{
    if items.len() > 0 {
        let rest = items.drop_first();
        assert(items[0] is Text);
        assert(items[0] != JsonTree::Text(crate::command::command_name(command)));
        assert(!detects(items[0], command));
        assert forall|i: int| 0 <= i < rest.len() implies #[trigger] rest[i] is Text && rest[i]
            != JsonTree::Text(crate::command::command_name(command)) by {
            assert(rest[i] == items[i + 1]);
        }
        lemma_not_detected(rest, command);
    }
}

/// The commands that may be supported are listed in a fixed order.
pub proof fn law_commands_are_listed_in_order()
    ensures
        crate::reolink::device::known_commands() =~= seq![
            CgiCommand::GetAbility,
            CgiCommand::GetDevInfo,
            CgiCommand::Snap,
            CgiCommand::GetChannelStatus,
            CgiCommand::GetTime,
            CgiCommand::SetTime,
            CgiCommand::GetNetwork,
            CgiCommand::GetUserAuth,
            CgiCommand::GetPtzPreset,
            CgiCommand::PtzCtrl,
        ],
{
}

// ---------------------------------------------------------------- looking ahead

/// What the camera supports is asked for first, then what it is; both are reported.
pub proof fn law_camera_is_looked_over(
    user_name: Seq<char>,
    first: ResponseModel,
    second: ResponseModel,
    ability: crate::model::AbilityModel,
    device: crate::model::DeviceModel,
)
    requires
        ability_of(user_name, first.raw_json) == Ok::<crate::model::AbilityModel, ErrorModel>(
            ability,
        ),
        device_of(second.raw_json) == Ok::<crate::model::DeviceModel, ErrorModel>(device),
    ensures
        crate::usecases::preflight::preflight_step(user_name, Seq::empty())
            matches StepModel::Send(request) && request.command == CgiCommand::GetAbility
            && request.params.user_name == Some(user_name),
        crate::usecases::preflight::preflight_step(user_name, seq![Ok(first)])
            matches StepModel::Send(request) && request.command == CgiCommand::GetDevInfo,
        crate::usecases::preflight::preflight_step(user_name, seq![Ok(first), Ok(second)])
            matches StepModel::Done(Ok(found)) && found.device_info == device
            && found.supported_commands == ability.supported_commands,
{
    let a = Ok::<ResponseModel, ErrorModel>(first);
    let b = Ok::<ResponseModel, ErrorModel>(second);
    assert(seq![a][0] == a && seq![a].skip(1).len() == 0);
    assert(seq![a, b][0] == a && seq![a, b].skip(1)[0] == b);
}

} // verus!
