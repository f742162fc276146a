//! What a refusal says: of which kind it is, and what it names.
use crate::command::{command_name, CgiCommand};
use crate::error::{AppError, ErrorKind, ErrorModel};
use crate::interfaces::arguments::{i64_arg, port_arg, u16_arg, u64_arg, u8_arg};
use crate::interfaces::report::unsupported;
use crate::json::{json_of_text, response_tree, tree_get, tree_get2, JsonTree};
use crate::laws::answers::is_integer;
use crate::model::{blank_status, PtzDirection, StatusModel};
use crate::reolink::client::{api_url_of, query_for, AuthModel};
use crate::reolink::device::{ability_in, channel_in, device_in};
use crate::reolink::media::{entry_path, output_path, snap_in};
use crate::reolink::network::code_error;
use crate::reolink::onvif::{
    config_error, rfc3339_of, security_header, security_header_at, velocity_of, ConfigModel,
};
use crate::reolink::ptz::{goto_step, move_step, presets_in, status_result, MoveModel};
use crate::reolink::system::{is_timestamp, set_time_in, set_time_step, time_in};
use crate::exchange::StepModel;
use crate::text::{dec, dec_int, trim};
use crate::usecases::ptz_calibrate_auto::{count_of, AxisKind};
use crate::usecases::ptz_get_absolute_raw::raw_position_of;
use crate::usecases::ptz_set_absolute_raw::input_error;
use crate::usecases::ptz_transport::no_config_error;
use vstd::prelude::*;

verus! {

/// The error is of a kind and says these words.
pub open spec fn says(error: ErrorModel, kind: ErrorKind, words: Seq<char>) -> bool {
    error.kind == kind && error.message == words
}

/// A refusal, where there is one, is of a kind and says these words.
pub open spec fn refuses<V>(
    outcome: Result<V, ErrorModel>,
    kind: ErrorKind,
    words: Seq<char>,
) -> bool {
    outcome matches Err(error) ==> says(error, kind, words)
}

/// An error is shown as the name of its kind and its words.
pub proof fn law_errors_are_shown_with_their_kind(error: &AppError, shown: String)
    requires
        call_ensures(AppError::describe, (error,), shown),
    ensures
        error.kind == ErrorKind::InvalidInput ==> shown@ == "InvalidInput"@ + ": "@
            + error.message@,
        error.kind == ErrorKind::Authentication ==> shown@ == "Authentication"@ + ": "@
            + error.message@,
        error.kind == ErrorKind::Network ==> shown@ == "Network"@ + ": "@ + error.message@,
        error.kind == ErrorKind::UnsupportedCommand ==> shown@ == "UnsupportedCommand"@ + ": "@
            + error.message@,
        error.kind == ErrorKind::UnexpectedResponse ==> shown@ == "UnexpectedResponse"@ + ": "@
            + error.message@,
{
}

/// A number that is refused is named, with what it must be.
pub proof fn law_refused_numbers_are_named(raw: Seq<char>, name: Seq<char>)
    ensures
        refuses(
            u8_arg(raw, name),
            ErrorKind::InvalidInput,
            name + " must be an integer between 0 and 255"@,
        ),
        refuses(
            u16_arg(raw, name),
            ErrorKind::InvalidInput,
            name + " must be an integer between 0 and 65535"@,
        ),
        refuses(
            u64_arg(raw, name),
            ErrorKind::InvalidInput,
            name + " must be a non-negative integer"@,
        ),
        refuses(i64_arg(raw, name), ErrorKind::InvalidInput, name + " must be an integer"@),
        u16_arg(raw, name) == Ok::<u16, ErrorModel>(0) ==> port_arg(raw, name) is Err && refuses(
            port_arg(raw, name),
            ErrorKind::InvalidInput,
            name + " must be in range 1..=65535, got 0"@,
        ),
        u16_arg(raw, name) is Err ==> port_arg(raw, name) is Err && refuses(
            port_arg(raw, name),
            ErrorKind::InvalidInput,
            name + " must be an integer between 0 and 65535"@,
        ),
{
}

/// A command that the camera does not have is named, and so is the user.
pub proof fn law_missing_commands_are_named(command: CgiCommand, user_name: Seq<char>)
    ensures
        says(
            unsupported(command, user_name),
            ErrorKind::UnsupportedCommand,
            "command "@ + command_name(command) + " is not supported by this camera (user="@
                + user_name + ")"@,
        ),
{
}

/// An answer that cannot be read is named by its command.
pub proof fn law_unreadable_answers_are_named(command: CgiCommand, raw: Seq<char>, why: Seq<char>)
    requires
        json_of_text(raw) == Err::<JsonTree, Seq<char>>(why),
    ensures
        response_tree(command, raw) is Err,
        refuses(
            response_tree(command, raw),
            ErrorKind::UnexpectedResponse,
            "failed to parse "@ + command_name(command) + " response JSON: "@ + why,
        ),
{
}

/// An answer without what was asked for is refused in words that say what is missing.
pub proof fn law_missing_answers_are_named(
    channel: u8,
    user_name: Seq<char>,
    tree: JsonTree,
    iso8601: Seq<char>,
    status: StatusModel,
)
    ensures
        refuses(
            ability_in(user_name, tree),
            ErrorKind::UnexpectedResponse,
            "GetAbility response did not include any known commands"@,
        ),
        refuses(
            device_in(tree),
            ErrorKind::UnexpectedResponse,
            "GetDevInfo response did not include model/firmware/serial fields"@,
        ),
        refuses(
            channel_in(channel, tree),
            ErrorKind::UnexpectedResponse,
            "GetChannelStatus response missing online state for channel "@ + dec(channel as nat),
        ),
        refuses(
            time_in(tree),
            ErrorKind::UnexpectedResponse,
            "GetTime response did not include a time string"@,
        ),
        tree is Object && tree_get(tree, "code"@) is None ==> set_time_in(iso8601, tree) is Err
            && refuses(
            set_time_in(iso8601, tree),
            ErrorKind::UnexpectedResponse,
            "SetTime response did not include result code"@,
        ),
        status_result(blank_status(channel)) is Err,
        refuses(
            status_result(status),
            ErrorKind::UnexpectedResponse,
            "PTZ status unavailable for channel "@ + dec(status.channel as nat),
        ),
        presets_in(channel, None) is Err,
        refuses(
            presets_in(channel, None),
            ErrorKind::UnexpectedResponse,
            "PTZ presets unavailable for channel "@ + dec(channel as nat),
        ),
        presets_in(channel, Some(tree)) is Ok,
        tree_get(tree, "code"@) is None ==> (code_error(tree, CgiCommand::SetNetPort) matches Some(
            error,
        ) && says(
            error,
            ErrorKind::UnexpectedResponse,
            command_name(CgiCommand::SetNetPort) + " response did not include code"@,
        )),
{
}

/// A place that is not known is named by its axis and its channel, the pan axis first.
pub proof fn law_missing_places_are_named(status: StatusModel)
    ensures
        status.pan_position is None ==> raw_position_of(status) is Err && refuses(
            raw_position_of(status),
            ErrorKind::UnexpectedResponse,
            "PTZ status missing pan count for channel "@ + dec(status.channel as nat),
        ),
        status.pan_position is Some && status.tilt_position is None ==> raw_position_of(status)
            is Err && refuses(
            raw_position_of(status),
            ErrorKind::UnexpectedResponse,
            "PTZ status missing tilt count for channel "@ + dec(status.channel as nat),
        ),
        refuses(
            count_of(status, AxisKind::Pan),
            ErrorKind::UnexpectedResponse,
            "PTZ status missing pan position for channel "@ + dec(status.channel as nat),
        ),
        refuses(
            count_of(status, AxisKind::Tilt),
            ErrorKind::UnexpectedResponse,
            "PTZ status missing tilt position for channel "@ + dec(status.channel as nat),
        ),
{
}

/// A code of the camera that says no is told.
pub proof fn law_codes_are_told(
    tree: JsonTree,
    code: JsonTree,
    n: i64,
    command: CgiCommand,
    iso8601: Seq<char>,
)
    requires
        tree_get(tree, "code"@) == Some(code),
        is_integer(code, n as int),
        n != 0,
    ensures
        code_error(tree, command) matches Some(error) && says(
            error,
            ErrorKind::UnexpectedResponse,
            command_name(command) + " failed with code="@ + dec_int(n as int),
        ),
        tree is Object ==> set_time_in(iso8601, tree) is Err && refuses(
            set_time_in(iso8601, tree),
            ErrorKind::UnexpectedResponse,
            "SetTime failed with code="@ + dec_int(n as int),
        ),
        tree is Object ==> snap_in(tree) is Err && refuses(
            snap_in(tree),
            ErrorKind::UnexpectedResponse,
            "Snap command failed with code="@ + dec_int(n as int),
        ),
{
}

/// Where an answer has no picture, the place that it names instead is told: that of its
/// value first, by `path` and then by `file`, and then that of the answer itself.
pub proof fn law_place_named_in_the_answer(entry: JsonTree, place: Seq<char>)
    requires
        trim(place).len() > 0,
    ensures
        tree_get2(entry, "value"@, "path"@) == Some(JsonTree::Text(place)) ==> entry_path(entry)
            == Some(trim(place)),
        tree_get2(entry, "value"@, "path"@) is None && tree_get2(entry, "value"@, "file"@) == Some(
            JsonTree::Text(place),
        ) ==> entry_path(entry) == Some(trim(place)),
        tree_get(entry, "value"@) is None && tree_get(entry, "file"@) == Some(JsonTree::Text(place))
            ==> entry_path(entry) == Some(trim(place)),
        tree_get(entry, "value"@) is None && tree_get(entry, "file"@) is None && tree_get(
            entry,
            "path"@,
        ) == Some(JsonTree::Text(place)) ==> entry_path(entry) == Some(trim(place)),
        tree_get(entry, "value"@) is None && tree_get(entry, "file"@) is None && tree_get(
            entry,
            "path"@,
        ) is None && tree_get(entry, "image"@) == Some(JsonTree::Text(place)) ==> entry_path(entry)
            == Some(trim(place)),
{
}

/// What must not be blank is named where it is.
pub proof fn law_blanks_are_named(blank: Seq<char>, channel: u8, config: ConfigModel)
    requires
        trim(blank).len() == 0,
    ensures
        api_url_of(blank) is Err && refuses(
            api_url_of(blank),
            ErrorKind::InvalidInput,
            "endpoint must not be empty"@,
        ),
        output_path(channel, Some(blank)) is Err && refuses(
            output_path(channel, Some(blank)),
            ErrorKind::InvalidInput,
            "output path must not be empty"@,
        ),
        query_for(CgiCommand::GetTime, AuthModel::Token(blank)) is Err && refuses(
            query_for(CgiCommand::GetTime, AuthModel::Token(blank)),
            ErrorKind::InvalidInput,
            "token auth requires non-empty token"@,
        ),
        config_error(ConfigModel { device_service_url: blank, ..config }) matches Some(error)
            && says(error, ErrorKind::InvalidInput, "ONVIF device service URL must not be empty"@),
        trim(config.device_service_url).len() > 0 ==> (config_error(
            ConfigModel { user_name: blank, ..config },
        ) matches Some(error) && says(
            error,
            ErrorKind::InvalidInput,
            "ONVIF user_name must not be empty"@,
        )),
        trim(config.device_service_url).len() > 0 && trim(config.user_name).len() > 0 ==> (
        config_error(ConfigModel { password: Seq::empty(), ..config }) matches Some(error) && says(
            error,
            ErrorKind::InvalidInput,
            "ONVIF password must not be empty"@,
        )),
{
}

/// A time is set only where it is one, and the words say what is wrong with it.
pub proof fn law_refused_times_are_told(iso8601: Seq<char>, tree: JsonTree)
    ensures
        trim(iso8601).len() == 0 ==> (set_time_step(iso8601, Seq::empty()) matches StepModel::Done(
            outcome,
        ) && outcome is Err && refuses(
            outcome,
            ErrorKind::InvalidInput,
            "iso8601 must not be empty"@,
        )),
        trim(iso8601).len() > 0 && !is_timestamp(trim(iso8601)) ==> (set_time_step(
            iso8601,
            Seq::empty(),
        ) matches StepModel::Done(outcome) && outcome is Err && refuses(
            outcome,
            ErrorKind::InvalidInput,
            "iso8601 must be an RFC3339-like timestamp (e.g. 2026-02-25T10:00:00Z)"@,
        )),
{
}

/// A speed, a stored position, a tolerance or a time that cannot be is told as it was given.
pub proof fn law_refused_movements_are_told(
    channel: u8,
    direction: PtzDirection,
    speed: u8,
    tolerance_count: int,
    timeout_ms: int,
)
    ensures
        speed == 0 || speed > 64 ==> (move_step(channel, direction, speed, None, Seq::empty())
            matches MoveModel::Done(outcome) && outcome is Err && refuses(
            outcome,
            ErrorKind::InvalidInput,
            "speed must be in range 1..=64, got "@ + dec(speed as nat),
        )),
        goto_step(channel, 0, Seq::empty()) matches MoveModel::Done(outcome) && outcome is Err
            && refuses(
            outcome,
            ErrorKind::InvalidInput,
            "preset_id must be in range 1..=255, got "@ + dec(0),
        ),
        tolerance_count <= 0 ==> (input_error(tolerance_count, timeout_ms) matches Some(error)
            && says(error, ErrorKind::InvalidInput, "tolerance count must be greater than 0"@)),
        tolerance_count > 0 && timeout_ms == 0 ==> (input_error(tolerance_count, timeout_ms)
            matches Some(error) && says(
            error,
            ErrorKind::InvalidInput,
            "timeout_ms must be greater than 0"@,
        )),
        refuses(
            velocity_of(direction, speed),
            ErrorKind::InvalidInput,
            "ONVIF ContinuousMove backend does not support diagonal PTZ directions"@,
        ),
        says(
            no_config_error(),
            ErrorKind::InvalidInput,
            "ONVIF backend requires REOCLI_PASSWORD and a valid ONVIF device service URL"@,
        ),
{
}

/// A message is signed with the moment at which it is made; a moment that cannot be written
/// is told.
pub proof fn law_messages_are_signed_at_their_moment(
    user_name: Seq<char>,
    password: Seq<char>,
    epoch_nanos: i128,
    nonce: Seq<u8>,
)
    ensures
        rfc3339_of(epoch_nanos) matches Ok(created) ==> security_header_at(
            user_name,
            password,
            epoch_nanos,
            nonce,
        ) == Ok::<Seq<char>, ErrorModel>(security_header(user_name, password, created, nonce)),
        rfc3339_of(epoch_nanos) matches Err(why) ==> (security_header_at(
            user_name,
            password,
            epoch_nanos,
            nonce,
        ) matches Err(error) && says(
            error,
            ErrorKind::UnexpectedResponse,
            "failed to format ONVIF created timestamp: "@ + why,
        )),
{
}

} // verus!
