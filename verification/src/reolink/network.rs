//! The ports and services of the camera.
use crate::command::{
    command_name, payload_params, request_model, CgiCommand, CommandParams, CommandRequest,
    RequestModel, ResponseModel,
};
use crate::error::{error_model, result_model, AppError, AppResult, ErrorKind, ErrorModel};
use crate::exchange::{
    answered, reply_models, reply_text, single_step, step_model, CgiReply, Step, StepModel,
};
use crate::json::{
    display_of_json, display_value, empty_object, empty_tree, option_model, or_tree,
    parse_response_json, payload_or_all, payload_or_whole, response_tree, tree_flag, tree_get,
    tree_get2, tree_int, tree_with, unsigned_tree, value_from_u64, with_member, Json, JsonTree,
};
use crate::model::NetPortSettings;
use crate::text::{dec_i64, dec_int, join2, join3};
use vstd::prelude::*;

verus! {

/// The error where the response to a command does not carry the code zero.
pub open spec fn code_error(payload: JsonTree, command: CgiCommand) -> Option<ErrorModel> {
    let code = match tree_get(payload, "code"@) {
        Some(raw) => tree_int(raw),
        None => None,
    };
    match code {
        None => Some(
            error_model(
                ErrorKind::UnexpectedResponse,
                command_name(command) + " response did not include code"@,
            ),
        ),
        Some(code) => if code == 0 {
            None
        } else {
            Some(
                error_model(
                    ErrorKind::UnexpectedResponse,
                    command_name(command) + " failed with code="@ + dec_int(code),
                ),
            )
        },
    }
}

/// The error where the response to a command does not carry the code zero.
pub fn ensure_code_ok(payload: &Json, command: CgiCommand) -> (r: Option<AppError>)
    ensures
        option_model(r) == code_error(payload@, command),
{
    let code = match payload.get("code") {
        Some(raw) => raw.as_int(),
        None => None,
    };
    match code {
        None => Some(
            AppError::with_message(
                ErrorKind::UnexpectedResponse,
                join2(command.as_str(), " response did not include code"),
            ),
        ),
        Some(code) => if code == 0 {
            None
        } else {
            Some(
                AppError::with_message(
                    ErrorKind::UnexpectedResponse,
                    join3(command.as_str(), " failed with code=", dec_i64(code).as_str()),
                ),
            )
        },
    }
}

/// A flag of the settings.
pub open spec fn flag_at(tree: JsonTree, name: Seq<char>) -> Option<bool> {
    match tree_get(tree, name) {
        Some(value) => tree_flag(value),
        None => None,
    }
}

/// A port of the settings: an integer from 0 to 65535.
pub open spec fn port_at(tree: JsonTree, name: Seq<char>) -> Option<u16> {
    match tree_get(tree, name) {
        Some(value) => match tree_int(value) {
            Some(n) => if 0 <= n <= 65535 {
                Some(n as u16)
            } else {
                None
            },
            None => None,
        },
        None => None,
    }
}

fn find_bool(value: &Json, name: &str) -> (r: Option<bool>)
    ensures
        r == flag_at(value@, name@),
{
    match value.get(name) {
        Some(inner) => inner.as_flag(),
        None => None,
    }
}

fn find_u16(value: &Json, name: &str) -> (r: Option<u16>)
    ensures
        r == port_at(value@, name@),
{
    match value.get(name) {
        Some(inner) => match inner.as_int() {
            Some(n) => if 0 <= n && n <= 65535 {
                Some(n as u16)
            } else {
                None
            },
            None => None,
        },
        None => None,
    }
}

/// The part of a response that holds the settings.
pub open spec fn net_port_part(payload: JsonTree) -> JsonTree {
    let value = or_tree(tree_get(payload, "value"@), payload);
    or_tree(tree_get(value, "NetPort"@), or_tree(tree_get(value, "netPort"@), value))
}

/// The settings in an object.
pub open spec fn settings_at(part: JsonTree) -> NetPortSettings {
    NetPortSettings {
        http_enable: flag_at(part, "httpEnable"@),
        http_port: port_at(part, "httpPort"@),
        https_enable: flag_at(part, "httpsEnable"@),
        https_port: port_at(part, "httpsPort"@),
        media_port: port_at(part, "mediaPort"@),
        onvif_enable: flag_at(part, "onvifEnable"@),
        onvif_port: port_at(part, "onvifPort"@),
        rtsp_enable: flag_at(part, "rtspEnable"@),
        rtsp_port: port_at(part, "rtspPort"@),
        rtmp_enable: flag_at(part, "rtmpEnable"@),
        rtmp_port: port_at(part, "rtmpPort"@),
    }
}

/// What a `GetNetPort` response says.
pub open spec fn net_port_in(tree: JsonTree) -> Result<NetPortSettings, ErrorModel> {
    let payload = payload_or_all(tree, CgiCommand::GetNetPort);
    match code_error(payload, CgiCommand::GetNetPort) {
        Some(error) => Err(error),
        None => Ok(settings_at(net_port_part(payload))),
    }
}

pub open spec fn net_port_of(raw_json: Seq<char>) -> Result<NetPortSettings, ErrorModel> {
    match response_tree(CgiCommand::GetNetPort, raw_json) {
        Ok(tree) => net_port_in(tree),
        Err(error) => Err(error),
    }
}

/// What a `GetNetPort` response says.
pub fn net_port_from_json(parsed: &Json) -> (r: AppResult<NetPortSettings>)
    ensures
        result_model(r) == net_port_in(parsed@),
{
    let payload = payload_or_whole(parsed, CgiCommand::GetNetPort);
    if let Some(error) = ensure_code_ok(payload, CgiCommand::GetNetPort) {
        return Err(error);
    }
    let value = match payload.get("value") {
        Some(inner) => inner,
        None => payload,
    };
    let part = match value.get("NetPort") {
        Some(inner) => inner,
        None => match value.get("netPort") {
            Some(inner) => inner,
            None => value,
        },
    };
    Ok(
        NetPortSettings {
            http_enable: find_bool(part, "httpEnable"),
            http_port: find_u16(part, "httpPort"),
            https_enable: find_bool(part, "httpsEnable"),
            https_port: find_u16(part, "httpsPort"),
            media_port: find_u16(part, "mediaPort"),
            onvif_enable: find_bool(part, "onvifEnable"),
            onvif_port: find_u16(part, "onvifPort"),
            rtsp_enable: find_bool(part, "rtspEnable"),
            rtsp_port: find_u16(part, "rtspPort"),
            rtmp_enable: find_bool(part, "rtmpEnable"),
            rtmp_port: find_u16(part, "rtmpPort"),
        },
    )
}

fn parse_net_port(raw_json: &str) -> (r: AppResult<NetPortSettings>)
    ensures
        result_model(r) == net_port_of(raw_json@),
{
    match parse_response_json(raw_json, CgiCommand::GetNetPort) {
        Ok(parsed) => net_port_from_json(&parsed),
        Err(error) => Err(error),
    }
}

/// The request that reads the settings.
pub open spec fn net_port_request() -> RequestModel {
    request_model(
        CgiCommand::GetNetPort,
        payload_params(display_of_json(tree_with(empty_tree(), "NetPort"@, empty_tree()))),
    )
}

fn build_net_port_request() -> (r: CommandRequest)
    ensures
        r@ == net_port_request(),
{
    let payload = with_member(empty_object(), "NetPort", empty_object());
    CommandRequest::with_payload(CgiCommand::GetNetPort, display_value(&payload))
}

/// The ports and services of the camera.
pub fn get_net_port(replies: &[CgiReply]) -> (r: Step<NetPortSettings>)
    ensures
        step_model(r) == single_step(
            net_port_request(),
            reply_models(replies@),
            |raw_json: Seq<char>| net_port_of(raw_json),
        ),
{
    if replies.len() == 0 {
        return Step::Send(build_net_port_request());
    }
    match reply_text(&replies[0]) {
        Ok(raw_json) => Step::Done(parse_net_port(raw_json)),
        Err(error) => Step::Done(Err(error)),
    }
}

// ---------------------------------------------------------------- ONVIF

/// The ONVIF port where neither the caller nor the camera names one.
pub const DEFAULT_ONVIF_PORT: u16 = 8000;

/// The port to set: the one asked for, else the one in use, else the default.
pub open spec fn target_port(asked: Option<u16>, current: NetPortSettings) -> u16 {
    match asked {
        Some(port) => port,
        None => match current.onvif_port {
            Some(port) => port,
            None => DEFAULT_ONVIF_PORT,
        },
    }
}

/// The request that switches ONVIF.
pub open spec fn set_onvif_request(enabled: bool, port: u16) -> RequestModel {
    RequestModel {
        command: CgiCommand::SetNetPort,
        action: 1,
        params: payload_params(
            display_of_json(
                tree_with(
                    empty_tree(),
                    "NetPort"@,
                    tree_with(
                        tree_with(
                            empty_tree(),
                            "onvifEnable"@,
                            unsigned_tree(
                                if enabled {
                                    1
                                } else {
                                    0
                                },
                            ),
                        ),
                        "onvifPort"@,
                        unsigned_tree(port as u64),
                    ),
                ),
            ),
        ),
    }
}

/// The code of success in the value of a response.
pub const RSP_CODE_OK: i64 = 200;

/// Why a `SetNetPort` response is no success.
pub open spec fn set_error_in(tree: JsonTree) -> Option<ErrorModel> {
    let payload = payload_or_all(tree, CgiCommand::SetNetPort);
    match code_error(payload, CgiCommand::SetNetPort) {
        Some(error) => Some(error),
        None => {
            let code = match tree_get2(payload, "value"@, "rspCode"@) {
                Some(raw) => tree_int(raw),
                None => None,
            };
            match code {
                Some(code) => if code != RSP_CODE_OK {
                    Some(
                        error_model(
                            ErrorKind::UnexpectedResponse,
                            "SetNetPort returned rspCode="@ + dec_int(code),
                        ),
                    )
                } else {
                    None
                },
                None => None,
            }
        },
    }
}

pub open spec fn set_error_of(reply: Result<ResponseModel, ErrorModel>) -> Option<ErrorModel> {
    match reply {
        Err(error) => Some(error),
        Ok(response) => match response_tree(CgiCommand::SetNetPort, response.raw_json) {
            Err(error) => Some(error),
            Ok(tree) => set_error_in(tree),
        },
    }
}

/// Why a `SetNetPort` response is no success.
pub fn set_error_from_json(parsed: &Json) -> (r: Option<AppError>)
    ensures
        option_model(r) == set_error_in(parsed@),
{
    let payload = payload_or_whole(parsed, CgiCommand::SetNetPort);
    if let Some(error) = ensure_code_ok(payload, CgiCommand::SetNetPort) {
        return Some(error);
    }
    let code = match payload.get2("value", "rspCode") {
        Some(raw) => raw.as_int(),
        None => None,
    };
    match code {
        Some(code) => if code != RSP_CODE_OK {
            Some(
                AppError::with_message(
                    ErrorKind::UnexpectedResponse,
                    join2("SetNetPort returned rspCode=", dec_i64(code).as_str()),
                ),
            )
        } else {
            None
        },
        None => None,
    }
}

fn set_failed(reply: &CgiReply) -> (r: Option<AppError>)
    ensures
        option_model(r) == set_error_of(result_model(*reply)),
{
    match reply_text(reply) {
        Err(error) => Some(error),
        Ok(raw_json) => match parse_response_json(raw_json, CgiCommand::SetNetPort) {
            Err(error) => Some(error),
            Ok(parsed) => set_error_from_json(&parsed),
        },
    }
}

/// Switching ONVIF: the settings are read, ONVIF is switched on its port, and the settings
/// are read again.
pub open spec fn set_onvif_step(
    enabled: bool,
    onvif_port: Option<u16>,
    replies: Seq<Result<ResponseModel, ErrorModel>>,
) -> StepModel<NetPortSettings> {
    if replies.len() == 0 {
        StepModel::Send(net_port_request())
    } else {
        match answered(replies[0], |raw_json: Seq<char>| net_port_of(raw_json)) {
            Err(error) => StepModel::Done(Err(error)),
            Ok(current) => if replies.len() == 1 {
                StepModel::Send(set_onvif_request(enabled, target_port(onvif_port, current)))
            } else {
                match set_error_of(replies[1]) {
                    Some(error) => StepModel::Done(Err(error)),
                    None => if replies.len() == 2 {
                        StepModel::Send(net_port_request())
                    } else {
                        StepModel::Done(
                            answered(replies[2], |raw_json: Seq<char>| net_port_of(raw_json)),
                        )
                    },
                }
            },
        }
    }
}

fn net_port_reply(reply: &CgiReply) -> (r: AppResult<NetPortSettings>)
    ensures
        result_model(r) == answered(
            result_model(*reply),
            |raw_json: Seq<char>| net_port_of(raw_json),
        ),
{
    match reply_text(reply) {
        Ok(raw_json) => parse_net_port(raw_json),
        Err(error) => Err(error),
    }
}

/// Switches ONVIF on or off, and reports the settings after it.
pub fn set_onvif_enabled(enabled: bool, onvif_port: Option<u16>, replies: &[CgiReply]) -> (r: Step<
    NetPortSettings,
>)
    ensures
        step_model(r) == set_onvif_step(enabled, onvif_port, reply_models(replies@)),
{
    if replies.len() == 0 {
        return Step::Send(build_net_port_request());
    }
    let current = match net_port_reply(&replies[0]) {
        Ok(settings) => settings,
        Err(error) => {
            return Step::Done(Err(error));
        },
    };
    if replies.len() == 1 {
        let port: u16 = match onvif_port {
            Some(port) => port,
            None => match current.onvif_port {
                Some(port) => port,
                None => DEFAULT_ONVIF_PORT,
            },
        };
        let flag: u64 = if enabled {
            1
        } else {
            0
        };
        let settings = with_member(empty_object(), "onvifEnable", value_from_u64(flag));
        let settings = with_member(settings, "onvifPort", value_from_u64(port as u64));
        let payload = with_member(empty_object(), "NetPort", settings);
        return Step::Send(
            CommandRequest {
                command: CgiCommand::SetNetPort,
                action: 1,
                params: CommandParams {
                    user_name: None,
                    channel: None,
                    payload: Some(display_value(&payload)),
                },
            },
        );
    }
    if let Some(error) = set_failed(&replies[1]) {
        return Step::Done(Err(error));
    }
    if replies.len() == 2 {
        return Step::Send(build_net_port_request());
    }
    Step::Done(net_port_reply(&replies[2]))
}

/// The port that is asked for is the port that is set; without one the camera's own port is
/// kept.
pub proof fn law_onvif_port_is_kept(asked: Option<u16>, current: NetPortSettings)
    ensures
        asked matches Some(port) ==> target_port(asked, current) == port,
        asked is None && current.onvif_port is Some ==> Some(target_port(asked, current))
            == current.onvif_port,
{
}

} // verus!
