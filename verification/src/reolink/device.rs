//! What the camera can do, what it is, and which of its channels are online.
use crate::command::{
    channel_params, command_name, no_params, request_model, user_params, CgiCommand, CommandRequest,
};
use crate::error::{error_model, result_model, AppError, AppResult, ErrorKind, ErrorModel};
use crate::exchange::{reply_models, reply_text, single_step, step_model, CgiReply, Step};
use crate::json::{
    is_same_name, item_trees, lemma_item_trees, lemma_member_trees, member_trees, option_model,
    or_tree, parse_response_json, parse_yes_no, payload_or_all, payload_or_whole, response_tree,
    same_name, search, search_tree, tree_enabled, tree_get, tree_u8, yes_no, Json, JsonTree, Probe,
};
use crate::model::{Ability, AbilityModel, ChannelStatus, DeviceInfo, DeviceModel};
use crate::text::{dec, dec_u64, join2, lower, lower_text, same_text, trim, trim_text};
use vstd::prelude::*;

verus! {

// ---------------------------------------------------------------- texts by key

/// A value as a text: a text that is not blank, without the white space around it; a
/// number; a truth value.
pub open spec fn tree_as_text(tree: JsonTree) -> Option<Seq<char>> {
    match tree {
        JsonTree::Text(text) => if trim(text).len() == 0 {
            None
        } else {
            Some(trim(text))
        },
        JsonTree::Number { text, .. } => Some(text),
        JsonTree::Bool(flag) => Some(
            if flag {
                "true"@
            } else {
                "false"@
            },
        ),
        _ => None,
    }
}

fn value_to_text(value: &Json) -> (r: Option<String>)
    ensures
        option_model(r) == tree_as_text(value@),
{
    match value {
        Json::Text(text) => {
            let normalized = trim_text(text.as_str());
            if normalized.as_str().is_empty() {
                None
            } else {
                Some(normalized)
            }
        },
        Json::Number(number) => Some(number.text.clone()),
        Json::Bool(flag) => Some(
            if *flag {
                "true".to_owned()
            } else {
                "false".to_owned()
            },
        ),
        _ => None,
    }
}

/// A text that a response may hold.
#[derive(Debug, Clone, Copy, PartialEq, Eq, Structural)]
pub enum TextField {
    Model,
    Firmware,
    Serial,
    Time,
}

/// The names under which a text is looked for.
pub open spec fn field_named(field: TextField, name: Seq<char>) -> bool {
    match field {
        TextField::Model => same_name(name, "model"@) || same_name(name, "name"@),
        TextField::Firmware => same_name(name, "firmware"@) || same_name(name, "firmVer"@)
            || same_name(name, "version"@) || same_name(name, "buildVersion"@),
        TextField::Serial => same_name(name, "serial"@) || same_name(name, "serialNo"@)
            || same_name(name, "serialNumber"@) || same_name(name, "uid"@),
        TextField::Time => same_name(name, "time"@) || same_name(name, "localTime"@) || same_name(
            name,
            "iso8601"@,
        ) || same_name(name, "dateTime"@) || same_name(name, "timeStr"@) || same_name(
            name,
            "utcTime"@,
        ),
    }
}

/// The first member with one of the field's names whose value is a text.
pub open spec fn text_among(members: Seq<(Seq<char>, JsonTree)>, field: TextField) -> Option<
    Seq<char>,
>
    decreases members.len(),
{
    if members.len() == 0 {
        None
    } else if field_named(field, members[0].0) && tree_as_text(members[0].1) is Some {
        tree_as_text(members[0].1)
    } else {
        text_among(members.drop_first(), field)
    }
}

impl TextField {
    fn is_named(self, name: &str) -> (r: bool)
        ensures
            r == field_named(self, name@),
    {
        match self {
            TextField::Model => is_same_name(name, "model") || is_same_name(name, "name"),
            TextField::Firmware => is_same_name(name, "firmware") || is_same_name(name, "firmVer")
                || is_same_name(name, "version") || is_same_name(name, "buildVersion"),
            TextField::Serial => is_same_name(name, "serial") || is_same_name(name, "serialNo")
                || is_same_name(name, "serialNumber") || is_same_name(name, "uid"),
            TextField::Time => is_same_name(name, "time") || is_same_name(name, "localTime")
                || is_same_name(name, "iso8601") || is_same_name(name, "dateTime") || is_same_name(
                name,
                "timeStr",
            ) || is_same_name(name, "utcTime"),
        }
    }
}

impl Probe for TextField {
    type Out = String;

    open spec fn hit(&self, object: JsonTree) -> Option<Seq<char>> {
        match object {
            JsonTree::Object(members) => text_among(members, *self),
            _ => None,
        }
    }

    fn probe(&self, object: &Json) -> (r: Option<String>) {
        match object {
            Json::Object(members) => {
                proof {
                    lemma_member_trees(members@);
                    assert(member_trees(members@).skip(0) =~= member_trees(members@));
                }
                let mut i: usize = 0;
                while i < members.len()
                    invariant
                        i <= members.len(),
                        object@ == JsonTree::Object(member_trees(members@)),
                        member_trees(members@).len() == members.len(),
                        forall|k: int|
                            0 <= k < members.len() ==> #[trigger] member_trees(members@)[k] == (
                                members@[k].0@,
                                members@[k].1@,
                            ),
                        self.hit(object@) == text_among(
                            member_trees(members@).skip(i as int),
                            *self,
                        ),
                    decreases members.len() - i,
                {
                    proof {
                        let rest = member_trees(members@).skip(i as int);
                        assert(rest[0] == member_trees(members@)[i as int]);
                        assert(rest.drop_first() =~= member_trees(members@).skip(i + 1));
                    }
                    if self.is_named(members[i].0.as_str()) {
                        let text = value_to_text(&members[i].1);
                        if text.is_some() {
                            return text;
                        }
                    }
                    i = i + 1;
                }
                None
            },
            _ => None,
        }
    }
}

/// The first text of a field anywhere in a tree: in an object before what it holds, and
/// what it holds in order.
pub open spec fn text_by_keys(tree: JsonTree, field: TextField) -> Option<Seq<char>> {
    search_tree(field, tree)
}

pub fn find_string_by_keys(value: &Json, field: TextField) -> (r: Option<String>)
    ensures
        option_model(r) == text_by_keys(value@, field),
{
    search(&field, value)
}

// ---------------------------------------------------------------- abilities

/// The commands that an ability may name, in the order in which it lists them.
pub open spec fn known_commands() -> Seq<CgiCommand> {
    seq![
        CgiCommand::GetAbility,
        CgiCommand::GetDevInfo,
        CgiCommand::Snap,
        CgiCommand::GetChannelStatus,
        CgiCommand::GetTime,
        CgiCommand::SetTime,
        CgiCommand::GetNetwork,
        CgiCommand::GetUserAuth,
        CgiCommand::GetPtzPreset,
        CgiCommand::PtzCtrl,
    ]
}

/// A text names the command.
pub open spec fn names_command(name: Seq<char>, command: CgiCommand) -> bool {
    ||| name == command_name(command)
    ||| command == CgiCommand::GetChannelStatus && name == "GetChannelstatus"@
}

/// What an object says of its permission: the first of `permit`, `Permit`, `enabled` and
/// `enable` that says yes or no.
pub open spec fn permit(tree: JsonTree) -> Option<bool> {
    match member_enabled(tree, "permit"@) {
        Some(flag) => Some(flag),
        None => match member_enabled(tree, "Permit"@) {
            Some(flag) => Some(flag),
            None => match member_enabled(tree, "enabled"@) {
                Some(flag) => Some(flag),
                None => member_enabled(tree, "enable"@),
            },
        },
    }
}

pub open spec fn member_enabled(tree: JsonTree, name: Seq<char>) -> Option<bool> {
    match tree_get(tree, name) {
        Some(value) => tree_enabled(value),
        None => None,
    }
}

/// What stands beside a command's name enables it, unless it says no.
pub open spec fn enables(tree: JsonTree) -> bool {
    match permit(tree) {
        Some(flag) => flag,
        None => match tree {
            JsonTree::Bool(flag) => flag,
            JsonTree::Number { signed, .. } => match signed {
                Some(n) => n > 0,
                None => true,
            },
            JsonTree::Text(text) => yes_no(text) != Some(false),
            _ => true,
        },
    }
}

/// A tree names the command as one that is enabled: as a text, as the name of a member, or
/// under `cmd` in an object.
pub open spec fn detects(tree: JsonTree, command: CgiCommand) -> bool
    decreases tree,
{
    match tree {
        JsonTree::Array(items) => items_detect(items, command),
        JsonTree::Object(members) => {
            ||| (tree_get(tree, "cmd"@) matches Some(JsonTree::Text(name)) && names_command(
                name,
                command,
            ) && enables(tree))
            ||| members_detect(members, command)
        },
        JsonTree::Text(name) => names_command(name, command),
        _ => false,
    }
}

pub open spec fn items_detect(items: Seq<JsonTree>, command: CgiCommand) -> bool
    decreases items,
{
    items.len() > 0 && (detects(items[0], command) || items_detect(items.drop_first(), command))
}

pub open spec fn members_detect(members: Seq<(Seq<char>, JsonTree)>, command: CgiCommand) -> bool
    decreases members,
{
    &&& members.len() > 0
    &&& {
        ||| names_command(members[0].0, command) && enables(members[0].1)
        ||| detects(members[0].1, command)
        ||| members_detect(members.drop_first(), command)
    }
}

/// The commands of a list that a tree names as enabled, in the order of the list.
pub open spec fn detected(tree: JsonTree, commands: Seq<CgiCommand>) -> Seq<CgiCommand>
    decreases commands.len(),
{
    if commands.len() == 0 {
        Seq::empty()
    } else if detects(tree, commands.last()) {
        detected(tree, commands.drop_last()).push(commands.last())
    } else {
        detected(tree, commands.drop_last())
    }
}

/// What a `GetAbility` response says.
pub open spec fn ability_in(user_name: Seq<char>, tree: JsonTree) -> Result<
    AbilityModel,
    ErrorModel,
> {
    let supported = detected(payload_or_all(tree, CgiCommand::GetAbility), known_commands());
    if supported.len() == 0 {
        Err(
            error_model(
                ErrorKind::UnexpectedResponse,
                "GetAbility response did not include any known commands"@,
            ),
        )
    } else {
        Ok(AbilityModel { user_name, supported_commands: supported })
    }
}

/// What the text of a `GetAbility` response says.
pub open spec fn ability_of(user_name: Seq<char>, raw_json: Seq<char>) -> Result<
    AbilityModel,
    ErrorModel,
> {
    match response_tree(CgiCommand::GetAbility, raw_json) {
        Ok(tree) => ability_in(user_name, tree),
        Err(error) => Err(error),
    }
}

fn ordered_known_commands() -> (r: Vec<CgiCommand>)
    ensures
        r@ == known_commands(),
{
    vec![
        CgiCommand::GetAbility,
        CgiCommand::GetDevInfo,
        CgiCommand::Snap,
        CgiCommand::GetChannelStatus,
        CgiCommand::GetTime,
        CgiCommand::SetTime,
        CgiCommand::GetNetwork,
        CgiCommand::GetUserAuth,
        CgiCommand::GetPtzPreset,
        CgiCommand::PtzCtrl,
    ]
}

fn text_names_command(name: &str, command: CgiCommand) -> (r: bool)
    ensures
        r == names_command(name@, command),
{
    same_text(name, command.as_str()) || (command == CgiCommand::GetChannelStatus && same_text(
        name,
        "GetChannelstatus",
    ))
}

fn member_is_enabled(value: &Json, name: &str) -> (r: Option<bool>)
    ensures
        r == member_enabled(value@, name@),
{
    match value.get(name) {
        Some(inner) => inner.as_enabled(),
        None => None,
    }
}

fn extract_permit(value: &Json) -> (r: Option<bool>)
    ensures
        r == permit(value@),
{
    let first = member_is_enabled(value, "permit");
    if first.is_some() {
        return first;
    }
    let second = member_is_enabled(value, "Permit");
    if second.is_some() {
        return second;
    }
    let third = member_is_enabled(value, "enabled");
    if third.is_some() {
        return third;
    }
    member_is_enabled(value, "enable")
}

fn command_enabled(value: &Json) -> (r: bool)
    ensures
        r == enables(value@),
{
    if let Some(flag) = extract_permit(value) {
        return flag;
    }
    match value {
        Json::Bool(flag) => *flag,
        Json::Number(number) => match number.signed {
            Some(n) => n > 0,
            None => true,
        },
        Json::Text(text) => match parse_yes_no(text.as_str()) {
            Some(flag) => flag,
            None => true,
        },
        _ => true,
    }
}

/// The value names the command as one that is enabled.
pub fn detects_command(value: &Json, command: CgiCommand) -> (r: bool)
    ensures
        r == detects(value@, command),
    decreases value,
{
    match value {
        Json::Array(items) => {
            proof {
                lemma_item_trees(items@);
                assert(item_trees(items@).skip(0) =~= item_trees(items@));
            }
            let mut i: usize = 0;
            while i < items.len()
                invariant
                    i <= items.len(),
                    *value == Json::Array(*items),
                    value@ == JsonTree::Array(item_trees(items@)),
                    item_trees(items@).len() == items.len(),
                    forall|k: int|
                        0 <= k < items.len() ==> #[trigger] item_trees(items@)[k] == items@[k]@,
                    detects(value@, command) == items_detect(
                        item_trees(items@).skip(i as int),
                        command,
                    ),
                decreases items.len() - i,
            {
                proof {
                    let rest = item_trees(items@).skip(i as int);
                    assert(rest[0] == item_trees(items@)[i as int]);
                    assert(rest.drop_first() =~= item_trees(items@).skip(i + 1));
                    assert(decreases_to!(value => items@[i as int]));
                }
                if detects_command(&items[i], command) {
                    return true;
                }
                i = i + 1;
            }
            false
        },
        Json::Object(members) => {
            if let Some(inner) = value.get("cmd") {
                if let Json::Text(name) = inner {
                    if text_names_command(name.as_str(), command) && command_enabled(value) {
                        return true;
                    }
                }
            }
            proof {
                lemma_member_trees(members@);
                assert(member_trees(members@).skip(0) =~= member_trees(members@));
            }
            let mut i: usize = 0;
            while i < members.len()
                invariant
                    i <= members.len(),
                    *value == Json::Object(*members),
                    value@ == JsonTree::Object(member_trees(members@)),
                    member_trees(members@).len() == members.len(),
                    forall|k: int|
                        0 <= k < members.len() ==> #[trigger] member_trees(members@)[k] == (
                            members@[k].0@,
                            members@[k].1@,
                        ),
                    detects(value@, command) == members_detect(
                        member_trees(members@).skip(i as int),
                        command,
                    ),
                decreases members.len() - i,
            {
                proof {
                    let rest = member_trees(members@).skip(i as int);
                    assert(rest[0] == member_trees(members@)[i as int]);
                    assert(rest.drop_first() =~= member_trees(members@).skip(i + 1));
                    assert(decreases_to!(value => members@[i as int].1));
                }
                if text_names_command(members[i].0.as_str(), command) && command_enabled(
                    &members[i].1,
                ) {
                    return true;
                }
                if detects_command(&members[i].1, command) {
                    return true;
                }
                i = i + 1;
            }
            false
        },
        Json::Text(name) => text_names_command(name.as_str(), command),
        _ => false,
    }
}

fn collect_supported_commands(value: &Json, commands: Vec<CgiCommand>) -> (r: Vec<CgiCommand>)
    ensures
        r@ == detected(value@, commands@),
{
    let mut out: Vec<CgiCommand> = Vec::new();
    let mut i: usize = 0;
    proof {
        assert(commands@.take(0) =~= Seq::<CgiCommand>::empty());
    }
    while i < commands.len()
        invariant
            i <= commands.len(),
            out@ == detected(value@, commands@.take(i as int)),
        decreases commands.len() - i,
    {
        proof {
            let upto = commands@.take(i + 1);
            assert(upto.drop_last() =~= commands@.take(i as int));
            assert(upto.last() == commands@[i as int]);
        }
        if detects_command(value, commands[i]) {
            out.push(commands[i]);
        }
        i = i + 1;
    }
    proof {
        assert(commands@.take(i as int) =~= commands@);
    }
    out
}

/// What a `GetAbility` response says.
pub fn ability_from_json(user_name: &str, parsed: &Json) -> (r: AppResult<Ability>)
    ensures
        result_model(r) == ability_in(user_name@, parsed@),
{
    let payload = payload_or_whole(parsed, CgiCommand::GetAbility);
    let supported_commands = collect_supported_commands(payload, ordered_known_commands());
    if supported_commands.is_empty() {
        return Err(
            AppError::new(
                ErrorKind::UnexpectedResponse,
                "GetAbility response did not include any known commands",
            ),
        );
    }
    Ok(Ability { user_name: user_name.to_owned(), supported_commands })
}

fn parse_ability(user_name: &str, raw_json: &str) -> (r: AppResult<Ability>)
    ensures
        result_model(r) == ability_of(user_name@, raw_json@),
{
    match parse_response_json(raw_json, CgiCommand::GetAbility) {
        Ok(parsed) => ability_from_json(user_name, &parsed),
        Err(error) => Err(error),
    }
}

/// Which commands the camera lets a user run.
pub fn get_ability(user_name: &str, replies: &[CgiReply]) -> (r: Step<Ability>)
    ensures
        step_model(r) == single_step(
            request_model(CgiCommand::GetAbility, user_params(user_name@)),
            reply_models(replies@),
            |raw_json: Seq<char>| ability_of(user_name@, raw_json),
        ),
{
    if replies.len() == 0 {
        return Step::Send(CommandRequest::for_user(CgiCommand::GetAbility, user_name));
    }
    match reply_text(&replies[0]) {
        Ok(raw_json) => Step::Done(parse_ability(user_name, raw_json)),
        Err(error) => Step::Done(Err(error)),
    }
}

// ---------------------------------------------------------------- device

/// The part of a `GetDevInfo` response that describes the device.
pub open spec fn device_part(tree: JsonTree) -> JsonTree {
    let payload = payload_or_all(tree, CgiCommand::GetDevInfo);
    match tree_get(payload, "value"@) {
        Some(value) => or_tree(tree_get(value, "DevInfo"@), value),
        None => payload,
    }
}

pub open spec fn text_or_empty(text: Option<Seq<char>>) -> Seq<char> {
    match text {
        Some(value) => value,
        None => Seq::empty(),
    }
}

/// What a `GetDevInfo` response says.
pub open spec fn device_in(tree: JsonTree) -> Result<DeviceModel, ErrorModel> {
    let part = device_part(tree);
    let model = text_by_keys(part, TextField::Model);
    let firmware = text_by_keys(part, TextField::Firmware);
    let serial = text_by_keys(part, TextField::Serial);
    if model is None && firmware is None && serial is None {
        Err(
            error_model(
                ErrorKind::UnexpectedResponse,
                "GetDevInfo response did not include model/firmware/serial fields"@,
            ),
        )
    } else {
        Ok(
            DeviceModel {
                model: text_or_empty(model),
                firmware: text_or_empty(firmware),
                serial_number: text_or_empty(serial),
            },
        )
    }
}

pub open spec fn device_of(raw_json: Seq<char>) -> Result<DeviceModel, ErrorModel> {
    match response_tree(CgiCommand::GetDevInfo, raw_json) {
        Ok(tree) => device_in(tree),
        Err(error) => Err(error),
    }
}

fn or_empty(text: Option<String>) -> (r: String)
    ensures
        r@ == text_or_empty(option_model(text)),
{
    match text {
        Some(value) => value,
        None => String::new(),
    }
}

/// What a `GetDevInfo` response says.
pub fn device_from_json(parsed: &Json) -> (r: AppResult<DeviceInfo>)
    ensures
        result_model(r) == device_in(parsed@),
{
    let payload = payload_or_whole(parsed, CgiCommand::GetDevInfo);
    let part = match payload.get("value") {
        Some(value) => match value.get("DevInfo") {
            Some(inner) => inner,
            None => value,
        },
        None => payload,
    };
    let model = find_string_by_keys(part, TextField::Model);
    let firmware = find_string_by_keys(part, TextField::Firmware);
    let serial_number = find_string_by_keys(part, TextField::Serial);
    if model.is_none() && firmware.is_none() && serial_number.is_none() {
        return Err(
            AppError::new(
                ErrorKind::UnexpectedResponse,
                "GetDevInfo response did not include model/firmware/serial fields",
            ),
        );
    }
    Ok(
        DeviceInfo {
            model: or_empty(model),
            firmware: or_empty(firmware),
            serial_number: or_empty(serial_number),
        },
    )
}

fn parse_device(raw_json: &str) -> (r: AppResult<DeviceInfo>)
    ensures
        result_model(r) == device_of(raw_json@),
{
    match parse_response_json(raw_json, CgiCommand::GetDevInfo) {
        Ok(parsed) => device_from_json(&parsed),
        Err(error) => Err(error),
    }
}

/// What kind of camera it is.
pub fn get_dev_info(replies: &[CgiReply]) -> (r: Step<DeviceInfo>)
    ensures
        step_model(r) == single_step(
            request_model(CgiCommand::GetDevInfo, no_params()),
            reply_models(replies@),
            |raw_json: Seq<char>| device_of(raw_json),
        ),
{
    if replies.len() == 0 {
        return Step::Send(CommandRequest::new(CgiCommand::GetDevInfo));
    }
    match reply_text(&replies[0]) {
        Ok(raw_json) => Step::Done(parse_device(raw_json)),
        Err(error) => Step::Done(Err(error)),
    }
}

// ---------------------------------------------------------------- channels

/// The word for online or offline.
pub open spec fn online_word(word: Seq<char>) -> Option<bool> {
    let w = lower(trim(word));
    if w == "1"@ || w == "true"@ || w == "online"@ || w == "yes"@ || w == "enabled"@ {
        Some(true)
    } else if w == "0"@ || w == "false"@ || w == "offline"@ || w == "no"@ || w == "disabled"@ {
        Some(false)
    } else {
        None
    }
}

/// The value says that something is online, or that it is not.
pub open spec fn online_value(tree: JsonTree) -> Option<bool> {
    match tree {
        JsonTree::Bool(flag) => Some(flag),
        JsonTree::Number { signed, .. } => match signed {
            Some(n) => Some(n != 0),
            None => None,
        },
        JsonTree::Text(text) => online_word(text),
        _ => None,
    }
}

pub open spec fn member_online(tree: JsonTree, name: Seq<char>) -> Option<bool> {
    match tree_get(tree, name) {
        Some(value) => online_value(value),
        None => None,
    }
}

pub open spec fn member_is_channel(tree: JsonTree, name: Seq<char>, channel: u8) -> bool {
    match tree_get(tree, name) {
        Some(value) => tree_u8(value) == Some(channel as int),
        None => false,
    }
}

/// The object is about the channel.
pub open spec fn about_channel(tree: JsonTree, channel: u8) -> bool {
    ||| member_is_channel(tree, "channel"@, channel)
    ||| member_is_channel(tree, "channelId"@, channel)
    ||| member_is_channel(tree, "channelNo"@, channel)
    ||| member_is_channel(tree, "id"@, channel)
}

/// What an object says of itself: the first of `online`, `isOnline`, `status`, `state` and
/// `enable` that says whether it is online.
pub open spec fn object_online(tree: JsonTree) -> Option<bool> {
    match member_online(tree, "online"@) {
        Some(flag) => Some(flag),
        None => match member_online(tree, "isOnline"@) {
            Some(flag) => Some(flag),
            None => match member_online(tree, "status"@) {
                Some(flag) => Some(flag),
                None => match member_online(tree, "state"@) {
                    Some(flag) => Some(flag),
                    None => member_online(tree, "enable"@),
                },
            },
        },
    }
}

/// Asks an object that is about a channel whether it is online.
pub struct OnlineOf {
    pub channel: u8,
}

fn parse_online_word(word: &str) -> (r: Option<bool>)
    ensures
        r == online_word(word@),
{
    let trimmed = trim_text(word);
    let lowered = lower_text(trimmed.as_str());
    let w = lowered.as_str();
    if same_text(w, "1") || same_text(w, "true") || same_text(w, "online") || same_text(w, "yes")
        || same_text(w, "enabled") {
        Some(true)
    } else if same_text(w, "0") || same_text(w, "false") || same_text(w, "offline") || same_text(
        w,
        "no",
    ) || same_text(w, "disabled") {
        Some(false)
    } else {
        None
    }
}

fn parse_online(value: &Json) -> (r: Option<bool>)
    ensures
        r == online_value(value@),
{
    match value {
        Json::Bool(flag) => Some(*flag),
        Json::Number(number) => match number.signed {
            Some(n) => Some(n != 0),
            None => None,
        },
        Json::Text(text) => parse_online_word(text.as_str()),
        _ => None,
    }
}

fn member_says_online(value: &Json, name: &str) -> (r: Option<bool>)
    ensures
        r == member_online(value@, name@),
{
    match value.get(name) {
        Some(inner) => parse_online(inner),
        None => None,
    }
}

fn member_says_channel(value: &Json, name: &str, channel: u8) -> (r: bool)
    ensures
        r == member_is_channel(value@, name@, channel),
{
    match value.get(name) {
        Some(inner) => match inner.as_byte() {
            Some(n) => n == channel,
            None => false,
        },
        None => false,
    }
}

impl Probe for OnlineOf {
    type Out = bool;

    open spec fn hit(&self, object: JsonTree) -> Option<bool> {
        if about_channel(object, self.channel) {
            object_online(object)
        } else {
            None
        }
    }

    fn probe(&self, object: &Json) -> (r: Option<bool>) {
        let matches_channel = member_says_channel(object, "channel", self.channel)
            || member_says_channel(object, "channelId", self.channel) || member_says_channel(
            object,
            "channelNo",
            self.channel,
        ) || member_says_channel(object, "id", self.channel);
        if !matches_channel {
            return None;
        }
        let first = member_says_online(object, "online");
        if first.is_some() {
            return first;
        }
        let second = member_says_online(object, "isOnline");
        if second.is_some() {
            return second;
        }
        let third = member_says_online(object, "status");
        if third.is_some() {
            return third;
        }
        let fourth = member_says_online(object, "state");
        if fourth.is_some() {
            return fourth;
        }
        member_says_online(object, "enable")
    }
}

/// Whether a tree says that a channel is online.
pub open spec fn online_in(tree: JsonTree, channel: u8) -> Option<bool> {
    search_tree(OnlineOf { channel }, tree)
}

fn extract_online(value: &Json, channel: u8) -> (r: Option<bool>)
    ensures
        r == online_in(value@, channel),
{
    let found = search(&OnlineOf { channel }, value);
    proof {
        assert(option_model(found) == found);
    }
    found
}

/// What a `GetChannelStatus` response says of a channel.
pub open spec fn channel_in(channel: u8, tree: JsonTree) -> Result<ChannelStatus, ErrorModel> {
    let payload = payload_or_all(tree, CgiCommand::GetChannelStatus);
    match online_in(or_tree(tree_get(payload, "value"@), payload), channel) {
        Some(online) => Ok(ChannelStatus { channel, online }),
        None => Err(
            error_model(
                ErrorKind::UnexpectedResponse,
                "GetChannelStatus response missing online state for channel "@ + dec(
                    channel as nat,
                ),
            ),
        ),
    }
}

pub open spec fn channel_of(channel: u8, raw_json: Seq<char>) -> Result<ChannelStatus, ErrorModel> {
    match response_tree(CgiCommand::GetChannelStatus, raw_json) {
        Ok(tree) => channel_in(channel, tree),
        Err(error) => Err(error),
    }
}

/// What a `GetChannelStatus` response says of a channel.
pub fn channel_status_from_json(channel: u8, parsed: &Json) -> (r: AppResult<ChannelStatus>)
    ensures
        result_model(r) == channel_in(channel, parsed@),
{
    let payload = payload_or_whole(parsed, CgiCommand::GetChannelStatus);
    let part = match payload.get("value") {
        Some(value) => value,
        None => payload,
    };
    match extract_online(part, channel) {
        Some(online) => Ok(ChannelStatus { channel, online }),
        None => Err(
            AppError::with_message(
                ErrorKind::UnexpectedResponse,
                join2(
                    "GetChannelStatus response missing online state for channel ",
                    dec_u64(channel as u64).as_str(),
                ),
            ),
        ),
    }
}

fn parse_channel_status(channel: u8, raw_json: &str) -> (r: AppResult<ChannelStatus>)
    ensures
        result_model(r) == channel_of(channel, raw_json@),
{
    match parse_response_json(raw_json, CgiCommand::GetChannelStatus) {
        Ok(parsed) => channel_status_from_json(channel, &parsed),
        Err(error) => Err(error),
    }
}

/// Whether a channel is online.
pub fn get_channel_status(channel: u8, replies: &[CgiReply]) -> (r: Step<ChannelStatus>)
    ensures
        step_model(r) == single_step(
            request_model(CgiCommand::GetChannelStatus, channel_params(channel)),
            reply_models(replies@),
            |raw_json: Seq<char>| channel_of(channel, raw_json),
        ),
{
    if replies.len() == 0 {
        return Step::Send(CommandRequest::for_channel(CgiCommand::GetChannelStatus, channel));
    }
    match reply_text(&replies[0]) {
        Ok(raw_json) => Step::Done(parse_channel_status(channel, raw_json)),
        Err(error) => Step::Done(Err(error)),
    }
}

// ---------------------------------------------------------------- laws

proof fn lemma_detected(tree: JsonTree, commands: Seq<CgiCommand>, command: CgiCommand)
    ensures
        detected(tree, commands).contains(command) <==> commands.contains(command) && detects(
            tree,
            command,
        ),
    decreases commands.len(),
{
    if commands.len() > 0 {
        let before = commands.drop_last();
        let last = commands.last();
        lemma_detected(tree, before, command);
        if before.contains(command) {
            let i = choose|i: int| 0 <= i < before.len() && before[i] == command;
            assert(commands[i] == command);
        }
        if commands.contains(command) && command != last {
            let i = choose|i: int| 0 <= i < commands.len() && commands[i] == command;
            assert(before[i] == command);
        }
        if detects(tree, last) {
            let out = detected(tree, before);
            assert(out.push(last)[out.len() as int] == last);
            if out.contains(command) {
                let i = choose|i: int| 0 <= i < out.len() && out[i] == command;
                assert(out.push(last)[i] == command);
            }
            if out.push(last).contains(command) && command != last {
                let i = choose|i: int| 0 <= i < out.push(last).len() && out.push(last)[i] == command;
                assert(out[i] == command);
            }
        }
    }
}

/// An ability lists the known commands that the response names as enabled, and no others.
pub proof fn law_ability_lists_what_was_detected(
    user_name: Seq<char>,
    tree: JsonTree,
    command: CgiCommand,
)
    ensures
        ability_in(user_name, tree) matches Ok(ability) ==> (ability.supported_commands.contains(
            command,
        ) <==> known_commands().contains(command) && detects(
            payload_or_all(tree, CgiCommand::GetAbility),
            command,
        )),
{
    lemma_detected(payload_or_all(tree, CgiCommand::GetAbility), known_commands(), command);
}

} // verus!
