//! The tool protocol: what the program does for a request, and what it answers.
use crate::command::CgiCommand;
use crate::error::{error_model, result_model, AppError, AppResult, ErrorKind, ErrorModel};
use crate::interfaces::arguments::{
    arg_models, i64_arg, invalid, invalid_input, invalid_value, on_off_word, parse_i64_arg,
    parse_on_off, parse_port_arg, parse_u64_arg, parse_u8_arg, port_arg, u64_arg, u8_arg,
};
use crate::interfaces::cli_args::{
    CliCommand, CliModel, DEFAULT_ABSOLUTE_RAW_TOL_COUNT, DEFAULT_ABSOLUTE_TIMEOUT_MS,
    DEFAULT_SPEED,
};
use crate::interfaces::cli_handlers::{command_list, format_commands};
use crate::interfaces::mcp_tools::{all_tools, supported_tools, tool_model, tool_models};
use crate::interfaces::report::{
    ensure_command_supported, fits, optional_ability, optional_report, support_of,
    ProgramModel, ProgramStep, Report, ReportModel, Support,
    SupportModel,
};
use crate::json::{
    copy_value, empty_object, empty_tree, null_value, render_json, signed_tree, text_of_json,
    tree_with, unsigned_tree, value_from_bool, value_from_i64, value_from_list, value_from_text,
    value_from_u64, value_tree, with_member, JsonTree,
};
use crate::model::{
    calibrated_state, direction_named, direction_op, Ability, AbilityModel, NetPortSettings,
    NumericRange, PtzDirection, PtzStatus, StatusModel,
};
use crate::reolink::ptz::{preset_model, PresetList};
use crate::text::{join2, same_text};
use crate::usecases::ptz_calibration::{CalibrationModel, PtzCalibrationReport};
use crate::usecases::ptz_get_absolute_raw::PtzRawPosition;
use vstd::prelude::*;

verus! {

#[derive(Debug, Clone, PartialEq, Eq)]
pub struct McpRequest {
    pub tool: String,
    pub arguments: Vec<String>,
}

// ---------------------------------------------------------------- arguments

/// A channel that may be left out.
pub open spec fn channel_or_zero(args: Seq<Seq<char>>) -> Result<u8, ErrorModel> {
    if args.len() > 0 {
        u8_arg(args[0], "channel"@)
    } else {
        Ok(0)
    }
}

/// A channel that may stand before the other arguments, and how many arguments it takes.
pub open spec fn channel_prefix(args: Seq<Seq<char>>) -> (u8, int) {
    if args.len() > 0 {
        match u8_arg(args[0], "channel"@) {
            Ok(channel) => (channel, 1),
            Err(_) => (0, 0),
        }
    } else {
        (0, 0)
    }
}

pub open spec fn mcp_snap_meaning(args: Seq<Seq<char>>) -> Result<CliModel, ErrorModel> {
    if args.len() == 0 {
        Ok(CliModel::Snap { channel: 0, out: None })
    } else if args.len() == 1 {
        match u8_arg(args[0], "channel"@) {
            Ok(channel) => Ok(CliModel::Snap { channel, out: None }),
            Err(_) => Ok(CliModel::Snap { channel: 0, out: Some(args[0]) }),
        }
    } else if args.len() == 2 {
        match u8_arg(args[0], "channel"@) {
            Ok(channel) => Ok(CliModel::Snap { channel, out: Some(args[1]) }),
            Err(error) => Err(error),
        }
    } else {
        invalid("reolink.snap accepts [channel] [out_path]"@)
    }
}

/// `[channel?] <direction> [speed] [duration_ms]`
pub open spec fn mcp_move_meaning(args: Seq<Seq<char>>) -> Result<CliModel, ErrorModel> {
    let (channel, at) = channel_prefix(args);
    if args.len() <= at {
        invalid("reolink.ptz_move requires [channel?] <direction> [speed] [duration_ms]"@)
    } else {
        match direction_named(args[at]) {
            None => invalid("unknown PTZ direction: "@ + args[at]),
            Some(direction) => {
                let speed = if args.len() > at + 1 {
                    u8_arg(args[at + 1], "speed"@)
                } else {
                    Ok(DEFAULT_SPEED)
                };
                let duration = if args.len() > at + 2 {
                    match u64_arg(args[at + 2], "duration_ms"@) {
                        Ok(ms) => Ok(Some(ms)),
                        Err(error) => Err(error),
                    }
                } else {
                    Ok(None)
                };
                match (speed, duration) {
                    (Err(error), _) => Err(error),
                    (Ok(_), Err(error)) => Err(error),
                    (Ok(speed), Ok(duration_ms)) => if args.len() > at + 3 {
                        invalid(
                            "reolink.ptz_move accepts [channel?] <direction> [speed] [duration_ms]"@,
                        )
                    } else {
                        Ok(CliModel::PtzMove { channel, direction, speed, duration_ms })
                    },
                }
            },
        }
    }
}

/// `[channel?] <preset_id>`
pub open spec fn mcp_goto_meaning(args: Seq<Seq<char>>) -> Result<CliModel, ErrorModel> {
    let (channel, at) = channel_prefix(args);
    if args.len() <= at {
        invalid("reolink.ptz_preset_goto requires [channel?] <preset_id>"@)
    } else if args.len() != at + 1 {
        invalid("reolink.ptz_preset_goto accepts [channel?] <preset_id>"@)
    } else {
        match u8_arg(args[at], "preset_id"@) {
            Ok(preset_id) => Ok(CliModel::PtzPresetGoto { channel, preset_id }),
            Err(error) => Err(error),
        }
    }
}

/// `[channel?] <pan_count> <tilt_count> [tol_count] [timeout_ms]`
pub open spec fn mcp_absolute_meaning(args: Seq<Seq<char>>) -> Result<CliModel, ErrorModel> {
    let (channel, at) = channel_prefix(args);
    if args.len() <= at + 1 {
        invalid(
            "reolink.ptz_set_absolute requires [channel?] <pan_count> <tilt_count> [tol_count] [timeout_ms]"@,
        )
    } else {
        let tolerance = if args.len() > at + 2 {
            i64_arg(args[at + 2], "tol_count"@)
        } else {
            Ok(DEFAULT_ABSOLUTE_RAW_TOL_COUNT)
        };
        let timeout = if args.len() > at + 3 {
            u64_arg(args[at + 3], "timeout_ms"@)
        } else {
            Ok(DEFAULT_ABSOLUTE_TIMEOUT_MS)
        };
        match (i64_arg(args[at], "pan_count"@), i64_arg(args[at + 1], "tilt_count"@)) {
            (Err(error), _) => Err(error),
            (Ok(_), Err(error)) => Err(error),
            (Ok(pan_count), Ok(tilt_count)) => match (tolerance, timeout) {
                (Err(error), _) => Err(error),
                (Ok(_), Err(error)) => Err(error),
                (Ok(tol_count), Ok(timeout_ms)) => if args.len() > at + 4 {
                    invalid(
                        "reolink.ptz_set_absolute accepts [channel?] <pan_count> <tilt_count> [tol_count] [timeout_ms]"@,
                    )
                } else {
                    Ok(
                        CliModel::PtzSetAbsolute {
                            channel,
                            pan_count,
                            tilt_count,
                            tol_count,
                            timeout_ms,
                        },
                    )
                },
            },
        }
    }
}

/// `<on|off> [onvif_port]`
pub open spec fn mcp_onvif_meaning(args: Seq<Seq<char>>) -> Result<CliModel, ErrorModel> {
    if args.len() == 0 {
        invalid("reolink.set_onvif_enabled requires <on|off> [onvif_port]"@)
    } else {
        match on_off_word(args[0]) {
            None => invalid("enabled must be one of on/off"@),
            Some(enabled) => {
                let port = if args.len() > 1 {
                    match port_arg(args[1], "onvif_port"@) {
                        Ok(n) => Ok(Some(n)),
                        Err(error) => Err(error),
                    }
                } else {
                    Ok(None)
                };
                match port {
                    Err(error) => Err(error),
                    Ok(onvif_port) => if args.len() > 2 {
                        invalid("reolink.set_onvif_enabled accepts <on|off> [onvif_port]"@)
                    } else {
                        Ok(CliModel::SetOnvif { enabled, onvif_port })
                    },
                }
            },
        }
    }
}

/// A tool whose only argument is a channel.
pub open spec fn channel_tool(tool: Seq<char>, channel: u8) -> Option<CliModel> {
    if tool == "reolink.get_channel_status"@ {
        Some(CliModel::GetChannelStatus { channel })
    } else if tool == "reolink.get_ptz_status"@ {
        Some(CliModel::GetPtzStatus { channel })
    } else if tool == "reolink.ptz_stop"@ {
        Some(CliModel::PtzStop { channel })
    } else if tool == "reolink.ptz_preset_list"@ {
        Some(CliModel::PtzPresetList { channel })
    } else if tool == "reolink.ptz_calibrate_auto"@ {
        Some(CliModel::PtzCalibrateAuto { channel })
    } else if tool == "reolink.ptz_get_absolute"@ {
        Some(CliModel::PtzGetAbsolute { channel })
    } else {
        None
    }
}

/// What the argument of a tool whose only argument is a channel means.
pub open spec fn channel_tool_meaning(tool: Seq<char>, args: Seq<Seq<char>>) -> Option<
    Result<CliModel, ErrorModel>,
> {
    match channel_or_zero(args) {
        Ok(channel) => match channel_tool(tool, channel) {
            Some(command) => Some(Ok(command)),
            None => None,
        },
        Err(error) => if channel_tool(tool, 0) is Some {
            Some(Err(error))
        } else {
            None
        },
    }
}

/// What the arguments of a tool mean. There is nothing for a tool that asks nothing of the
/// camera, and for one that does not exist.
pub open spec fn tool_meaning(tool: Seq<char>, args: Seq<Seq<char>>) -> Option<
    Result<CliModel, ErrorModel>,
> {
    if tool == "reolink.get_user_auth"@ {
        Some(
            if args.len() < 2 {
                invalid("reolink.get_user_auth requires [user, password]"@)
            } else {
                Ok(CliModel::GetUserAuth { user_name: args[0], password: args[1] })
            },
        )
    } else if tool == "reolink.get_ability"@ {
        Some(
            Ok(
                CliModel::GetAbility {
                    user_name: if args.len() > 0 {
                        args[0]
                    } else {
                        "admin"@
                    },
                },
            ),
        )
    } else if tool == "reolink.get_dev_info"@ {
        Some(Ok(CliModel::GetDevInfo))
    } else if tool == "reolink.get_time"@ {
        Some(Ok(CliModel::GetTime))
    } else if tool == "reolink.set_time"@ {
        Some(
            if args.len() == 0 {
                invalid("reolink.set_time requires [iso8601]"@)
            } else {
                Ok(CliModel::SetTime { iso8601: args[0] })
            },
        )
    } else if tool == "reolink.get_net_port"@ {
        Some(Ok(CliModel::GetNetPort))
    } else if tool == "reolink.set_onvif_enabled"@ {
        Some(mcp_onvif_meaning(args))
    } else if tool == "reolink.snap"@ {
        Some(mcp_snap_meaning(args))
    } else if tool == "reolink.ptz_move"@ {
        Some(mcp_move_meaning(args))
    } else if tool == "reolink.ptz_preset_goto"@ {
        Some(mcp_goto_meaning(args))
    } else if tool == "reolink.ptz_set_absolute"@ {
        Some(mcp_absolute_meaning(args))
    } else {
        channel_tool_meaning(tool, args)
    }
}

/// The command of the camera that a tool needs and that is looked for among the abilities
/// of the user first.
pub open spec fn tool_need(tool: Seq<char>) -> Option<CgiCommand> {
    if tool == "reolink.get_dev_info"@ {
        Some(CgiCommand::GetDevInfo)
    } else if tool == "reolink.get_channel_status"@ {
        Some(CgiCommand::GetChannelStatus)
    } else if tool == "reolink.get_time"@ {
        Some(CgiCommand::GetTime)
    } else if tool == "reolink.set_time"@ {
        Some(CgiCommand::SetTime)
    } else if tool == "reolink.snap"@ {
        Some(CgiCommand::Snap)
    } else if tool == "reolink.ptz_preset_list"@ {
        Some(CgiCommand::GetPtzPreset)
    } else if tool == "reolink.ptz_move"@ || tool == "reolink.ptz_stop"@ || tool
        == "reolink.ptz_preset_goto"@ || tool == "reolink.ptz_calibrate_auto"@ || tool
        == "reolink.ptz_set_absolute"@ {
        Some(CgiCommand::PtzCtrl)
    } else {
        None
    }
}

fn parse_channel(args: &[String]) -> (r: AppResult<u8>)
    ensures
        result_model(r) == channel_or_zero(arg_models(args@)),
{
    if args.len() > 0 {
        parse_u8_arg(args[0].as_str(), "channel")
    } else {
        Ok(0)
    }
}

fn parse_optional_channel_prefix(args: &[String]) -> (r: (u8, usize))
    ensures
        (r.0, r.1 as int) == channel_prefix(arg_models(args@)),
        r.1 <= args.len(),
        r.1 <= 1,
{
    if args.len() == 0 {
        return (0, 0);
    }
    match parse_u8_arg(args[0].as_str(), "channel") {
        Ok(channel) => (channel, 1),
        Err(_) => (0, 0),
    }
}

fn parse_snap_args(args: &[String]) -> (r: AppResult<CliCommand>)
    ensures
        result_model(r) == mcp_snap_meaning(arg_models(args@)),
{
    if args.len() == 0 {
        return Ok(CliCommand::Snap { channel: 0, out: None });
    }
    if args.len() > 2 {
        return Err(invalid_input("reolink.snap accepts [channel] [out_path]"));
    }
    let channel = parse_u8_arg(args[0].as_str(), "channel");
    if args.len() == 1 {
        return match channel {
            Ok(channel) => Ok(CliCommand::Snap { channel, out: None }),
            Err(_) => Ok(CliCommand::Snap { channel: 0, out: Some(args[0].clone()) }),
        };
    }
    match channel {
        Ok(channel) => Ok(CliCommand::Snap { channel, out: Some(args[1].clone()) }),
        Err(error) => Err(error),
    }
}

fn parse_ptz_move_args(args: &[String]) -> (r: AppResult<CliCommand>)
    ensures
        result_model(r) == mcp_move_meaning(arg_models(args@)),
{
    let (channel, at) = parse_optional_channel_prefix(args);
    let left: usize = args.len() - at;
    if left == 0 {
        return Err(
            invalid_input("reolink.ptz_move requires [channel?] <direction> [speed] [duration_ms]"),
        );
    }
    let direction = match PtzDirection::parse(args[at].as_str()) {
        Some(direction) => direction,
        None => {
            return Err(invalid_value("unknown PTZ direction: ", args[at].as_str()));
        },
    };
    let mut speed: u8 = DEFAULT_SPEED;
    if left > 1 {
        match parse_u8_arg(args[at + 1].as_str(), "speed") {
            Ok(n) => {
                speed = n;
            },
            Err(error) => {
                return Err(error);
            },
        }
    }
    let mut duration_ms: Option<u64> = None;
    if left > 2 {
        match parse_u64_arg(args[at + 2].as_str(), "duration_ms") {
            Ok(n) => {
                duration_ms = Some(n);
            },
            Err(error) => {
                return Err(error);
            },
        }
    }
    if left > 3 {
        return Err(
            invalid_input("reolink.ptz_move accepts [channel?] <direction> [speed] [duration_ms]"),
        );
    }
    Ok(CliCommand::PtzMove { channel, direction, speed, duration_ms })
}

fn parse_ptz_preset_goto_args(args: &[String]) -> (r: AppResult<CliCommand>)
    ensures
        result_model(r) == mcp_goto_meaning(arg_models(args@)),
{
    let (channel, at) = parse_optional_channel_prefix(args);
    let left: usize = args.len() - at;
    if left == 0 {
        return Err(invalid_input("reolink.ptz_preset_goto requires [channel?] <preset_id>"));
    }
    if left != 1 {
        return Err(invalid_input("reolink.ptz_preset_goto accepts [channel?] <preset_id>"));
    }
    match parse_u8_arg(args[at].as_str(), "preset_id") {
        Ok(preset_id) => Ok(CliCommand::PtzPresetGoto { channel, preset_id }),
        Err(error) => Err(error),
    }
}

fn parse_ptz_set_absolute_args(args: &[String]) -> (r: AppResult<CliCommand>)
    ensures
        result_model(r) == mcp_absolute_meaning(arg_models(args@)),
{
    let (channel, at) = parse_optional_channel_prefix(args);
    let left: usize = args.len() - at;
    if left < 2 {
        return Err(
            invalid_input(
                "reolink.ptz_set_absolute requires [channel?] <pan_count> <tilt_count> [tol_count] [timeout_ms]",
            ),
        );
    }
    let pan_count: i64 = match parse_i64_arg(args[at].as_str(), "pan_count") {
        Ok(n) => n,
        Err(error) => {
            return Err(error);
        },
    };
    let tilt_count: i64 = match parse_i64_arg(args[at + 1].as_str(), "tilt_count") {
        Ok(n) => n,
        Err(error) => {
            return Err(error);
        },
    };
    let mut tol_count: i64 = DEFAULT_ABSOLUTE_RAW_TOL_COUNT;
    if left > 2 {
        match parse_i64_arg(args[at + 2].as_str(), "tol_count") {
            Ok(n) => {
                tol_count = n;
            },
            Err(error) => {
                return Err(error);
            },
        }
    }
    let mut timeout_ms: u64 = DEFAULT_ABSOLUTE_TIMEOUT_MS;
    if left > 3 {
        match parse_u64_arg(args[at + 3].as_str(), "timeout_ms") {
            Ok(n) => {
                timeout_ms = n;
            },
            Err(error) => {
                return Err(error);
            },
        }
    }
    if left > 4 {
        return Err(
            invalid_input(
                "reolink.ptz_set_absolute accepts [channel?] <pan_count> <tilt_count> [tol_count] [timeout_ms]",
            ),
        );
    }
    Ok(CliCommand::PtzSetAbsolute { channel, pan_count, tilt_count, tol_count, timeout_ms })
}

fn parse_set_onvif_args(args: &[String]) -> (r: AppResult<CliCommand>)
    ensures
        result_model(r) == mcp_onvif_meaning(arg_models(args@)),
{
    if args.len() == 0 {
        return Err(invalid_input("reolink.set_onvif_enabled requires <on|off> [onvif_port]"));
    }
    let enabled = match parse_on_off(args[0].as_str()) {
        Some(enabled) => enabled,
        None => {
            return Err(invalid_input("enabled must be one of on/off"));
        },
    };
    let mut onvif_port: Option<u16> = None;
    if args.len() > 1 {
        match parse_port_arg(args[1].as_str(), "onvif_port") {
            Ok(n) => {
                onvif_port = Some(n);
            },
            Err(error) => {
                return Err(error);
            },
        }
    }
    if args.len() > 2 {
        return Err(invalid_input("reolink.set_onvif_enabled accepts <on|off> [onvif_port]"));
    }
    Ok(CliCommand::SetOnvif { enabled, onvif_port })
}

pub open spec fn optional_meaning(r: Option<AppResult<CliCommand>>) -> Option<
    Result<CliModel, ErrorModel>,
> {
    match r {
        Some(result) => Some(result_model(result)),
        None => None,
    }
}

/// What the arguments of a tool mean.
pub fn parse_tool(tool: &str, args: &[String]) -> (r: Option<AppResult<CliCommand>>)
    ensures
        optional_meaning(r) == tool_meaning(tool@, arg_models(args@)),
{
    if same_text(tool, "reolink.get_user_auth") {
        if args.len() < 2 {
            return Some(Err(invalid_input("reolink.get_user_auth requires [user, password]")));
        }
        return Some(
            Ok(CliCommand::GetUserAuth { user_name: args[0].clone(), password: args[1].clone() }),
        );
    }
    if same_text(tool, "reolink.get_ability") {
        let user_name = if args.len() > 0 {
            args[0].clone()
        } else {
            "admin".to_owned()
        };
        return Some(Ok(CliCommand::GetAbility { user_name }));
    }
    if same_text(tool, "reolink.get_dev_info") {
        return Some(Ok(CliCommand::GetDevInfo));
    }
    if same_text(tool, "reolink.get_time") {
        return Some(Ok(CliCommand::GetTime));
    }
    if same_text(tool, "reolink.set_time") {
        if args.len() == 0 {
            return Some(Err(invalid_input("reolink.set_time requires [iso8601]")));
        }
        return Some(Ok(CliCommand::SetTime { iso8601: args[0].clone() }));
    }
    if same_text(tool, "reolink.get_net_port") {
        return Some(Ok(CliCommand::GetNetPort));
    }
    if same_text(tool, "reolink.set_onvif_enabled") {
        return Some(parse_set_onvif_args(args));
    }
    if same_text(tool, "reolink.snap") {
        return Some(parse_snap_args(args));
    }
    if same_text(tool, "reolink.ptz_move") {
        return Some(parse_ptz_move_args(args));
    }
    if same_text(tool, "reolink.ptz_preset_goto") {
        return Some(parse_ptz_preset_goto_args(args));
    }
    if same_text(tool, "reolink.ptz_set_absolute") {
        return Some(parse_ptz_set_absolute_args(args));
    }
    parse_channel_tool(tool, args)
}

fn parse_channel_tool(tool: &str, args: &[String]) -> (r: Option<AppResult<CliCommand>>)
    ensures
        optional_meaning(r) == channel_tool_meaning(tool@, arg_models(args@)),
{
    let known = same_text(tool, "reolink.get_channel_status") || same_text(
        tool,
        "reolink.get_ptz_status",
    ) || same_text(tool, "reolink.ptz_stop") || same_text(tool, "reolink.ptz_preset_list")
        || same_text(tool, "reolink.ptz_calibrate_auto") || same_text(
        tool,
        "reolink.ptz_get_absolute",
    );
    if !known {
        return None;
    }
    let channel: u8 = match parse_channel(args) {
        Ok(channel) => channel,
        Err(error) => {
            return Some(Err(error));
        },
    };
    Some(
        Ok(
            if same_text(tool, "reolink.get_channel_status") {
                CliCommand::GetChannelStatus { channel }
            } else if same_text(tool, "reolink.get_ptz_status") {
                CliCommand::GetPtzStatus { channel }
            } else if same_text(tool, "reolink.ptz_stop") {
                CliCommand::PtzStop { channel }
            } else if same_text(tool, "reolink.ptz_preset_list") {
                CliCommand::PtzPresetList { channel }
            } else if same_text(tool, "reolink.ptz_calibrate_auto") {
                CliCommand::PtzCalibrateAuto { channel }
            } else {
                CliCommand::PtzGetAbsolute { channel }
            },
        ),
    )
}

pub fn needed_command_of_tool(tool: &str) -> (r: Option<CgiCommand>)
    ensures
        r == tool_need(tool@),
{
    if same_text(tool, "reolink.get_dev_info") {
        Some(CgiCommand::GetDevInfo)
    } else if same_text(tool, "reolink.get_channel_status") {
        Some(CgiCommand::GetChannelStatus)
    } else if same_text(tool, "reolink.get_time") {
        Some(CgiCommand::GetTime)
    } else if same_text(tool, "reolink.set_time") {
        Some(CgiCommand::SetTime)
    } else if same_text(tool, "reolink.snap") {
        Some(CgiCommand::Snap)
    } else if same_text(tool, "reolink.ptz_preset_list") {
        Some(CgiCommand::GetPtzPreset)
    } else if same_text(tool, "reolink.ptz_move") || same_text(tool, "reolink.ptz_stop")
        || same_text(tool, "reolink.ptz_preset_goto") || same_text(
        tool,
        "reolink.ptz_calibrate_auto",
    ) || same_text(tool, "reolink.ptz_set_absolute") {
        Some(CgiCommand::PtzCtrl)
    } else {
        None
    }
}

// ---------------------------------------------------------------- values

pub open spec fn int_tree(value: Option<i64>) -> JsonTree {
    match value {
        Some(n) => signed_tree(n),
        None => JsonTree::Null,
    }
}

pub open spec fn port_tree(value: Option<u16>) -> JsonTree {
    match value {
        Some(n) => unsigned_tree(n as u64),
        None => JsonTree::Null,
    }
}

pub open spec fn ms_tree(value: Option<u64>) -> JsonTree {
    match value {
        Some(n) => unsigned_tree(n),
        None => JsonTree::Null,
    }
}

pub open spec fn flag_tree(value: Option<bool>) -> JsonTree {
    match value {
        Some(flag) => JsonTree::Bool(flag),
        None => JsonTree::Null,
    }
}

pub open spec fn name_tree(value: Option<Seq<char>>) -> JsonTree {
    match value {
        Some(text) => JsonTree::Text(text),
        None => JsonTree::Null,
    }
}

/// The ends of a range, or null.
pub open spec fn range_tree(value: Option<NumericRange>) -> JsonTree {
    match value {
        Some(range) => tree_with(
            tree_with(empty_tree(), "min"@, signed_tree(range.min)),
            "max"@,
            signed_tree(range.max),
        ),
        None => JsonTree::Null,
    }
}

fn int_value(value: Option<i64>) -> (r: serde_json::Value)
    ensures
        value_tree(r) == int_tree(value),
{
    match value {
        Some(n) => value_from_i64(n),
        None => null_value(),
    }
}

fn port_value(value: Option<u16>) -> (r: serde_json::Value)
    ensures
        value_tree(r) == port_tree(value),
{
    match value {
        Some(n) => value_from_u64(n as u64),
        None => null_value(),
    }
}

fn ms_value(value: Option<u64>) -> (r: serde_json::Value)
    ensures
        value_tree(r) == ms_tree(value),
{
    match value {
        Some(n) => value_from_u64(n),
        None => null_value(),
    }
}

fn flag_value(value: Option<bool>) -> (r: serde_json::Value)
    ensures
        value_tree(r) == flag_tree(value),
{
    match value {
        Some(flag) => value_from_bool(flag),
        None => null_value(),
    }
}

fn range_value(value: Option<NumericRange>) -> (r: serde_json::Value)
    ensures
        value_tree(r) == range_tree(value),
{
    match value {
        Some(range) => {
            let v = with_member(empty_object(), "min", value_from_i64(range.min));
            with_member(v, "max", value_from_i64(range.max))
        },
        None => null_value(),
    }
}

// ---------------------------------------------------------------- lists

/// The names of the tools.
pub open spec fn tools_tree() -> JsonTree {
    tree_with(
        empty_tree(),
        "tools"@,
        JsonTree::Array(Seq::new(all_tools().len(), |i: int| JsonTree::Text(all_tools()[i].0))),
    )
}

fn tools_value() -> (r: serde_json::Value)
    ensures
        value_tree(r) == tools_tree(),
{
    let tools = supported_tools();
    let mut names: Vec<serde_json::Value> = Vec::new();
    let mut i: usize = 0;
    while i < tools.len()
        invariant
            i <= tools.len(),
            names.len() == i,
            tool_models(tools@) == all_tools(),
            forall|k: int|
                0 <= k < i ==> value_tree(#[trigger] names@[k]) == JsonTree::Text(all_tools()[k].0),
        decreases tools.len() - i,
    {
        proof {
            assert(tool_models(tools@)[i as int] == tool_model(tools@[i as int]));
        }
        names.push(value_from_text(tools[i].name));
        i = i + 1;
    }
    proof {
        assert(tool_models(tools@).len() == tools.len());
        assert(Seq::new(names@.len(), |k: int| value_tree(names@[k])) =~= Seq::new(
            all_tools().len(),
            |k: int| JsonTree::Text(all_tools()[k].0),
        ));
    }
    with_member(empty_object(), "tools", value_from_list(names))
}

/// Numbers as a list.
pub open spec fn numbers_tree(numbers: Seq<u8>) -> JsonTree {
    JsonTree::Array(Seq::new(numbers.len(), |i: int| unsigned_tree(numbers[i] as u64)))
}

fn numbers_value(numbers: &Vec<u8>) -> (r: serde_json::Value)
    ensures
        value_tree(r) == numbers_tree(numbers@),
{
    let mut items: Vec<serde_json::Value> = Vec::new();
    let mut i: usize = 0;
    while i < numbers.len()
        invariant
            i <= numbers.len(),
            items.len() == i,
            forall|k: int|
                0 <= k < i ==> value_tree(#[trigger] items@[k]) == unsigned_tree(
                    numbers@[k] as u64,
                ),
        decreases numbers.len() - i,
    {
        items.push(value_from_u64(numbers[i] as u64));
        i = i + 1;
    }
    proof {
        assert(Seq::new(items@.len(), |k: int| value_tree(items@[k])) =~= Seq::new(
            numbers@.len(),
            |k: int| unsigned_tree(numbers@[k] as u64),
        ));
    }
    value_from_list(items)
}

/// A stored position: its number and its name.
pub open spec fn preset_tree(preset: (u8, Option<Seq<char>>)) -> JsonTree {
    tree_with(
        tree_with(empty_tree(), "id"@, unsigned_tree(preset.0 as u64)),
        "name"@,
        name_tree(preset.1),
    )
}

pub open spec fn presets_tree(presets: Seq<(u8, Option<Seq<char>>)>) -> JsonTree {
    JsonTree::Array(Seq::new(presets.len(), |i: int| preset_tree(presets[i])))
}

fn presets_value(list: &PresetList) -> (r: serde_json::Value)
    ensures
        value_tree(r) == presets_tree(list@),
{
    let mut items: Vec<serde_json::Value> = Vec::new();
    let mut i: usize = 0;
    while i < list.presets.len()
        invariant
            i <= list.presets.len(),
            items.len() == i,
            list.presets.len() == list@.len(),
            forall|k: int|
                0 <= k < i ==> value_tree(#[trigger] items@[k]) == preset_tree(list@[k]),
        decreases list.presets.len() - i,
    {
        let preset = &list.presets[i];
        proof {
            assert(list@[i as int] == preset_model(*preset));
        }
        let name = match &preset.name {
            Some(text) => value_from_text(text.as_str()),
            None => null_value(),
        };
        let v = with_member(empty_object(), "id", value_from_u64(preset.id.value() as u64));
        items.push(with_member(v, "name", name));
        i = i + 1;
    }
    proof {
        assert(Seq::new(items@.len(), |k: int| value_tree(items@[k])) =~= Seq::new(
            list@.len(),
            |k: int| preset_tree(list@[k]),
        ));
    }
    value_from_list(items)
}

// ---------------------------------------------------------------- objects

pub open spec fn status_tree(status: StatusModel) -> JsonTree {
    let t = tree_with(empty_tree(), "channel"@, unsigned_tree(status.channel as u64));
    let t = tree_with(t, "pan"@, int_tree(status.pan_position));
    let t = tree_with(t, "tilt"@, int_tree(status.tilt_position));
    let t = tree_with(t, "zoom"@, int_tree(status.zoom_position));
    let t = tree_with(t, "focus"@, int_tree(status.focus_position));
    let t = tree_with(t, "pan_range"@, range_tree(status.pan_range));
    let t = tree_with(t, "tilt_range"@, range_tree(status.tilt_range));
    let t = tree_with(t, "zoom_range"@, range_tree(status.zoom_range));
    let t = tree_with(t, "focus_range"@, range_tree(status.focus_range));
    let t = tree_with(t, "preset_range"@, range_tree(status.preset_range));
    let t = tree_with(t, "enabled_presets"@, numbers_tree(status.enabled_presets));
    let t = tree_with(t, "calibration_state"@, int_tree(status.calibration_state));
    tree_with(t, "calibrated"@, flag_tree(calibrated_state(status)))
}

fn status_value(status: &PtzStatus) -> (r: serde_json::Value)
    ensures
        value_tree(r) == status_tree(status@),
{
    let v = with_member(empty_object(), "channel", value_from_u64(status.channel as u64));
    let v = with_member(v, "pan", int_value(status.pan_position));
    let v = with_member(v, "tilt", int_value(status.tilt_position));
    let v = with_member(v, "zoom", int_value(status.zoom_position));
    let v = with_member(v, "focus", int_value(status.focus_position));
    let v = with_member(v, "pan_range", range_value(status.pan_range));
    let v = with_member(v, "tilt_range", range_value(status.tilt_range));
    let v = with_member(v, "zoom_range", range_value(status.zoom_range));
    let v = with_member(v, "focus_range", range_value(status.focus_range));
    let v = with_member(v, "preset_range", range_value(status.preset_range));
    let v = with_member(v, "enabled_presets", numbers_value(&status.enabled_presets));
    let v = with_member(v, "calibration_state", int_value(status.calibration_state));
    with_member(v, "calibrated", flag_value(status.calibrated()))
}

/// The settings as members of an object.
pub open spec fn with_net_port(object: JsonTree, settings: NetPortSettings) -> JsonTree {
    let t = tree_with(object, "http_enable"@, flag_tree(settings.http_enable));
    let t = tree_with(t, "http_port"@, port_tree(settings.http_port));
    let t = tree_with(t, "https_enable"@, flag_tree(settings.https_enable));
    let t = tree_with(t, "https_port"@, port_tree(settings.https_port));
    let t = tree_with(t, "media_port"@, port_tree(settings.media_port));
    let t = tree_with(t, "onvif_enable"@, flag_tree(settings.onvif_enable));
    let t = tree_with(t, "onvif_port"@, port_tree(settings.onvif_port));
    let t = tree_with(t, "rtsp_enable"@, flag_tree(settings.rtsp_enable));
    let t = tree_with(t, "rtsp_port"@, port_tree(settings.rtsp_port));
    let t = tree_with(t, "rtmp_enable"@, flag_tree(settings.rtmp_enable));
    tree_with(t, "rtmp_port"@, port_tree(settings.rtmp_port))
}

fn add_net_port(object: serde_json::Value, settings: &NetPortSettings) -> (r: serde_json::Value)
    requires
        value_tree(object) is Object,
    ensures
        value_tree(r) == with_net_port(value_tree(object), *settings),
{
    let v = with_member(object, "http_enable", flag_value(settings.http_enable));
    let v = with_member(v, "http_port", port_value(settings.http_port));
    let v = with_member(v, "https_enable", flag_value(settings.https_enable));
    let v = with_member(v, "https_port", port_value(settings.https_port));
    let v = with_member(v, "media_port", port_value(settings.media_port));
    let v = with_member(v, "onvif_enable", flag_value(settings.onvif_enable));
    let v = with_member(v, "onvif_port", port_value(settings.onvif_port));
    let v = with_member(v, "rtsp_enable", flag_value(settings.rtsp_enable));
    let v = with_member(v, "rtsp_port", port_value(settings.rtsp_port));
    let v = with_member(v, "rtmp_enable", flag_value(settings.rtmp_enable));
    with_member(v, "rtmp_port", port_value(settings.rtmp_port))
}

pub open spec fn position_tree(pose: PtzRawPosition) -> JsonTree {
    let t = tree_with(empty_tree(), "channel"@, unsigned_tree(pose.channel as u64));
    let t = tree_with(t, "pan_count"@, signed_tree(pose.pan_count));
    let t = tree_with(t, "tilt_count"@, signed_tree(pose.tilt_count));
    let t = tree_with(t, "zoom_count"@, int_tree(pose.zoom_count));
    tree_with(t, "focus_count"@, int_tree(pose.focus_count))
}

fn position_value(pose: &PtzRawPosition) -> (r: serde_json::Value)
    ensures
        value_tree(r) == position_tree(*pose),
        value_tree(r) is Object,
{
    let v = with_member(empty_object(), "channel", value_from_u64(pose.channel as u64));
    let v = with_member(v, "pan_count", value_from_i64(pose.pan_count));
    let v = with_member(v, "tilt_count", value_from_i64(pose.tilt_count));
    let v = with_member(v, "zoom_count", int_value(pose.zoom_count));
    with_member(v, "focus_count", int_value(pose.focus_count))
}

/// The model of an axis.
pub open spec fn model_tree(alpha: JsonTree, beta: JsonTree) -> JsonTree {
    tree_with(tree_with(empty_tree(), "alpha"@, alpha), "beta"@, beta)
}

/// What was measured of the camera.
pub open spec fn calibrated_tree(result: CalibrationModel) -> JsonTree {
    let t = tree_with(empty_tree(), "serial_number"@, JsonTree::Text(result.calibration.serial_number));
    let t = tree_with(t, "model"@, JsonTree::Text(result.calibration.model));
    let t = tree_with(t, "firmware"@, JsonTree::Text(result.calibration.firmware));
    let t = tree_with(t, "pan_min_count"@, signed_tree(result.calibration.pan_min_count));
    let t = tree_with(t, "pan_max_count"@, signed_tree(result.calibration.pan_max_count));
    let t = tree_with(t, "pan_deadband_count"@, signed_tree(result.calibration.pan_deadband_count));
    let t = tree_with(t, "tilt_min_count"@, signed_tree(result.calibration.tilt_min_count));
    let t = tree_with(t, "tilt_max_count"@, signed_tree(result.calibration.tilt_max_count));
    let t = tree_with(t, "tilt_deadband_count"@, signed_tree(result.calibration.tilt_deadband_count));
    let t = tree_with(t, "pan_model"@, model_tree(result.calibration.pan_model.alpha, result.calibration.pan_model.beta));
    let t = tree_with(t, "tilt_model"@, model_tree(result.calibration.tilt_model.alpha, result.calibration.tilt_model.beta));
    tree_with(t, "created_at"@, JsonTree::Text(result.calibration.created_at))
}

/// What is reported of the measuring.
pub open spec fn measuring_tree(result: CalibrationModel) -> JsonTree {
    let t = tree_with(empty_tree(), "samples"@, unsigned_tree(result.report.samples as u64));
    let t = tree_with(t, "pan_error_p95_count"@, signed_tree(result.report.pan_error_p95_count));
    let t = tree_with(t, "tilt_error_p95_count"@, signed_tree(result.report.tilt_error_p95_count));
    tree_with(t, "notes"@, JsonTree::Text(result.report.notes))
}

pub open spec fn calibration_tree(result: CalibrationModel) -> JsonTree {
    let t = tree_with(empty_tree(), "channel"@, unsigned_tree(result.channel as u64));
    let t = tree_with(t, "camera_key"@, JsonTree::Text(result.camera_key));
    let t = tree_with(t, "calibration_path"@, JsonTree::Text(result.calibration_path));
    let t = tree_with(t, "reused_existing"@, JsonTree::Bool(result.reused_existing));
    let t = tree_with(t, "calibrated_state"@, flag_tree(result.calibrated_state));
    let t = tree_with(t, "pan_count"@, signed_tree(result.pan_count));
    let t = tree_with(t, "tilt_count"@, signed_tree(result.tilt_count));
    let t = tree_with(t, "calibration"@, calibrated_tree(result));
    tree_with(t, "report"@, measuring_tree(result))
}

fn model_value(alpha: &serde_json::Value, beta: &serde_json::Value) -> (r: serde_json::Value)
    ensures
        value_tree(r) == model_tree(value_tree(*alpha), value_tree(*beta)),
{
    let v = with_member(empty_object(), "alpha", copy_value(alpha));
    with_member(v, "beta", copy_value(beta))
}

fn calibration_value(result: &PtzCalibrationReport) -> (r: serde_json::Value)
    ensures
        value_tree(r) == calibration_tree(result@),
{
    let c = with_member(
        empty_object(),
        "serial_number",
        value_from_text(result.calibration.serial_number.as_str()),
    );
    let c = with_member(c, "model", value_from_text(result.calibration.model.as_str()));
    let c = with_member(c, "firmware", value_from_text(result.calibration.firmware.as_str()));
    let c = with_member(c, "pan_min_count", value_from_i64(result.calibration.pan_min_count));
    let c = with_member(c, "pan_max_count", value_from_i64(result.calibration.pan_max_count));
    let c = with_member(c, "pan_deadband_count", value_from_i64(result.calibration.pan_deadband_count));
    let c = with_member(c, "tilt_min_count", value_from_i64(result.calibration.tilt_min_count));
    let c = with_member(c, "tilt_max_count", value_from_i64(result.calibration.tilt_max_count));
    let c = with_member(c, "tilt_deadband_count", value_from_i64(result.calibration.tilt_deadband_count));
    let c = with_member(c, "pan_model", model_value(&result.calibration.pan_model.alpha, &result.calibration.pan_model.beta));
    let c = with_member(c, "tilt_model", model_value(&result.calibration.tilt_model.alpha, &result.calibration.tilt_model.beta));
    let c = with_member(c, "created_at", value_from_text(result.calibration.created_at.as_str()));
    let m = with_member(empty_object(), "samples", value_from_u64(result.report.samples as u64));
    let m = with_member(
        m,
        "pan_error_p95_count",
        value_from_i64(result.report.pan_error_p95_count),
    );
    let m = with_member(
        m,
        "tilt_error_p95_count",
        value_from_i64(result.report.tilt_error_p95_count),
    );
    let m = with_member(m, "notes", value_from_text(result.report.notes.as_str()));
    let v = with_member(empty_object(), "channel", value_from_u64(result.channel as u64));
    let v = with_member(v, "camera_key", value_from_text(result.camera_key.as_str()));
    let v = with_member(v, "calibration_path", value_from_text(result.calibration_path.as_str()));
    let v = with_member(v, "reused_existing", value_from_bool(result.reused_existing));
    let v = with_member(v, "calibrated_state", flag_value(result.calibrated_state));
    let v = with_member(v, "pan_count", value_from_i64(result.pan_count));
    let v = with_member(v, "tilt_count", value_from_i64(result.tilt_count));
    let v = with_member(v, "calibration", c);
    with_member(v, "report", m)
}

// ---------------------------------------------------------------- answers

/// An object that says that all went well on a channel.
pub open spec fn ok_tree(channel: u8) -> JsonTree {
    tree_with(
        tree_with(empty_tree(), "ok"@, JsonTree::Bool(true)),
        "channel"@,
        unsigned_tree(channel as u64),
    )
}

fn ok_value(channel: u8) -> (r: serde_json::Value)
    ensures
        value_tree(r) == ok_tree(channel),
        value_tree(r) is Object,
{
    let v = with_member(empty_object(), "ok", value_from_bool(true));
    with_member(v, "channel", value_from_u64(channel as u64))
}

/// What is answered for the report of an operation.
pub open spec fn answer_tree(command: CliModel, report: ReportModel) -> JsonTree {
    match (command, report) {
        (CliModel::GetUserAuth { .. }, ReportModel::Token(token)) => tree_with(
            empty_tree(),
            "token"@,
            JsonTree::Text(token),
        ),
        (CliModel::GetAbility { .. }, ReportModel::Ability(ability)) => tree_with(
            tree_with(empty_tree(), "user"@, JsonTree::Text(ability.user_name)),
            "commands"@,
            JsonTree::Text(command_list(ability.supported_commands)),
        ),
        (CliModel::GetDevInfo, ReportModel::Device(info)) => tree_with(
            tree_with(
                tree_with(empty_tree(), "model"@, JsonTree::Text(info.model)),
                "firmware"@,
                JsonTree::Text(info.firmware),
            ),
            "serial"@,
            JsonTree::Text(info.serial_number),
        ),
        (CliModel::GetChannelStatus { .. }, ReportModel::Channel(status)) => tree_with(
            tree_with(empty_tree(), "channel"@, unsigned_tree(status.channel as u64)),
            "online"@,
            JsonTree::Bool(status.online),
        ),
        (CliModel::GetPtzStatus { .. }, ReportModel::Status(status)) => status_tree(status),
        (CliModel::GetTime, ReportModel::Time(time)) => tree_with(
            empty_tree(),
            "time"@,
            JsonTree::Text(time),
        ),
        (CliModel::SetTime { .. }, ReportModel::Time(time)) => tree_with(
            empty_tree(),
            "time"@,
            JsonTree::Text(time),
        ),
        (CliModel::GetNetPort, ReportModel::NetPort(settings)) => with_net_port(
            empty_tree(),
            settings,
        ),
        (CliModel::SetOnvif { enabled, onvif_port }, ReportModel::NetPort(settings)) =>
            with_net_port(
            tree_with(
                tree_with(empty_tree(), "requested_enabled"@, JsonTree::Bool(enabled)),
                "requested_port"@,
                port_tree(onvif_port),
            ),
            settings,
        ),
        (CliModel::Snap { .. }, ReportModel::Snapshot(snapshot)) => tree_with(
            tree_with(
                tree_with(empty_tree(), "channel"@, unsigned_tree(snapshot.channel as u64)),
                "image_path"@,
                JsonTree::Text(snapshot.image_path),
            ),
            "bytes_written"@,
            unsigned_tree(snapshot.bytes_written as u64),
        ),
        (
            CliModel::PtzMove { channel, direction, speed, duration_ms },
            ReportModel::Moved,
        ) => tree_with(
            tree_with(
                tree_with(ok_tree(channel), "direction"@, JsonTree::Text(direction_op(direction))),
                "speed"@,
                unsigned_tree(speed as u64),
            ),
            "duration_ms"@,
            ms_tree(duration_ms),
        ),
        (CliModel::PtzStop { channel }, ReportModel::Moved) => ok_tree(channel),
        (CliModel::PtzPresetList { channel }, ReportModel::Presets(presets)) => tree_with(
            tree_with(empty_tree(), "channel"@, unsigned_tree(channel as u64)),
            "presets"@,
            presets_tree(presets),
        ),
        (CliModel::PtzPresetGoto { channel, preset_id }, ReportModel::Moved) => tree_with(
            ok_tree(channel),
            "preset_id"@,
            unsigned_tree(preset_id as u64),
        ),
        (CliModel::PtzCalibrateAuto { .. }, ReportModel::Calibration(result)) =>
            calibration_tree(result),
        (
            CliModel::PtzSetAbsolute { tol_count, timeout_ms, .. },
            ReportModel::Position(pose),
        ) => tree_with(
            tree_with(position_tree(pose), "tol_count"@, signed_tree(tol_count)),
            "timeout_ms"@,
            unsigned_tree(timeout_ms),
        ),
        (CliModel::PtzGetAbsolute { .. }, ReportModel::Position(pose)) => position_tree(pose),
        _ => empty_tree(),
    }
}

/// The operations that have a tool.
pub open spec fn has_tool(command: CliModel) -> bool {
    !(command is Help || command is PtzOnvifStatus || command is PtzOnvifOptions
        || command is PtzOnvifRelativeMove || command is Preflight)
}

/// What is answered for the report of an operation. There is nothing for a report of another
/// operation.
fn answer_value(command: &CliCommand, report: &Report) -> (r: Option<serde_json::Value>)
    requires
        has_tool(command@),
    ensures
        match r {
            Some(value) => fits(command@, report@) && value_tree(value) == answer_tree(
                command@,
                report@,
            ),
            None => !fits(command@, report@),
        },
{
    match (command, report) {
        (CliCommand::GetUserAuth { .. }, Report::Token(token)) => Some(
            with_member(empty_object(), "token", value_from_text(token.as_str())),
        ),
        (CliCommand::GetAbility { .. }, Report::Ability(ability)) => {
            let commands = format_commands(&ability.supported_commands);
            let v = with_member(
                empty_object(),
                "user",
                value_from_text(ability.user_name.as_str()),
            );
            Some(with_member(v, "commands", value_from_text(commands.as_str())))
        },
        (CliCommand::GetDevInfo, Report::Device(info)) => {
            let v = with_member(empty_object(), "model", value_from_text(info.model.as_str()));
            let v = with_member(v, "firmware", value_from_text(info.firmware.as_str()));
            Some(with_member(v, "serial", value_from_text(info.serial_number.as_str())))
        },
        (CliCommand::GetChannelStatus { .. }, Report::Channel(status)) => {
            let v = with_member(empty_object(), "channel", value_from_u64(status.channel as u64));
            Some(with_member(v, "online", value_from_bool(status.online)))
        },
        (CliCommand::GetPtzStatus { .. }, Report::Status(status)) => Some(status_value(status)),
        (CliCommand::GetTime, Report::Time(time)) => Some(
            with_member(empty_object(), "time", value_from_text(time.iso8601.as_str())),
        ),
        (CliCommand::SetTime { .. }, Report::Time(time)) => Some(
            with_member(empty_object(), "time", value_from_text(time.iso8601.as_str())),
        ),
        (CliCommand::GetNetPort, Report::NetPort(settings)) => Some(
            add_net_port(empty_object(), settings),
        ),
        (CliCommand::SetOnvif { enabled, onvif_port }, Report::NetPort(settings)) => {
            let v = with_member(empty_object(), "requested_enabled", value_from_bool(*enabled));
            let v = with_member(v, "requested_port", port_value(*onvif_port));
            Some(add_net_port(v, settings))
        },
        (CliCommand::Snap { .. }, Report::Snapshot(snapshot)) => {
            let v = with_member(empty_object(), "channel", value_from_u64(snapshot.channel as u64));
            let v = with_member(v, "image_path", value_from_text(snapshot.image_path.as_str()));
            Some(with_member(v, "bytes_written", value_from_u64(snapshot.bytes_written as u64)))
        },
        (CliCommand::PtzMove { channel, direction, speed, duration_ms }, Report::Moved) => {
            let v = with_member(ok_value(*channel), "direction", value_from_text(direction.as_op()));
            let v = with_member(v, "speed", value_from_u64(*speed as u64));
            Some(with_member(v, "duration_ms", ms_value(*duration_ms)))
        },
        (CliCommand::PtzStop { channel }, Report::Moved) => Some(ok_value(*channel)),
        (CliCommand::PtzPresetList { channel }, Report::Presets(presets)) => {
            let v = with_member(empty_object(), "channel", value_from_u64(*channel as u64));
            Some(with_member(v, "presets", presets_value(presets)))
        },
        (CliCommand::PtzPresetGoto { channel, preset_id }, Report::Moved) => Some(
            with_member(ok_value(*channel), "preset_id", value_from_u64(*preset_id as u64)),
        ),
        (CliCommand::PtzCalibrateAuto { .. }, Report::Calibration(result)) => Some(
            calibration_value(result),
        ),
        (CliCommand::PtzSetAbsolute { tol_count, timeout_ms, .. }, Report::Position(pose)) => {
            let v = with_member(position_value(pose), "tol_count", value_from_i64(*tol_count));
            Some(with_member(v, "timeout_ms", value_from_u64(*timeout_ms)))
        },
        (CliCommand::PtzGetAbsolute { .. }, Report::Position(pose)) => Some(position_value(pose)),
        _ => None,
    }
}

/// An answer, given the text of its JSON or why it has none.
pub open spec fn answered_text(rendered: Result<Seq<char>, Seq<char>>) -> Result<
    Seq<char>,
    ErrorModel,
> {
    match rendered {
        Ok(text) => Ok(text),
        Err(message) => Err(
            error_model(
                ErrorKind::UnexpectedResponse,
                "failed to serialize MCP response JSON: "@ + message,
            ),
        ),
    }
}

/// An answer, given the text of its JSON or why it has none.
pub fn json_response(rendered: Result<String, String>) -> (r: AppResult<String>)
    ensures
        result_model(r) == answered_text(
            match rendered {
                Ok(text) => Ok(text@),
                Err(message) => Err(message@),
            },
        ),
{
    match rendered {
        Ok(text) => Ok(text),
        Err(message) => Err(
            AppError::with_message(
                ErrorKind::UnexpectedResponse,
                join2("failed to serialize MCP response JSON: ", message.as_str()),
            ),
        ),
    }
}

/// What the program does for a request: the abilities of the user are looked at where the
/// tool needs a command of the camera, its arguments are read, the operation is carried
/// out, and its report is answered. A report of another operation does not count.
pub open spec fn request_step(
    tool: Seq<char>,
    args: Seq<Seq<char>>,
    user_name: Seq<char>,
    ability: Option<Result<AbilityModel, ErrorModel>>,
    outcome: Option<Result<ReportModel, ErrorModel>>,
) -> ProgramModel {
    if tool == "mcp.list_tools"@ {
        ProgramModel::Done(answered_text(text_of_json(tools_tree())))
    } else {
        match support_of(tool_need(tool), ability) {
            SupportModel::Unknown => ProgramModel::CheckAbility { user_name },
            SupportModel::Refused(error) => ProgramModel::Done(Err(error)),
            SupportModel::Supported => match tool_meaning(tool, args) {
                None => ProgramModel::Done(
                    Err(error_model(ErrorKind::UnsupportedCommand, "unknown tool: "@ + tool)),
                ),
                Some(Err(error)) => ProgramModel::Done(Err(error)),
                Some(Ok(command)) => match outcome {
                    None => ProgramModel::Perform(command),
                    Some(Err(error)) => ProgramModel::Done(Err(error)),
                    Some(Ok(report)) => if fits(command, report) {
                        ProgramModel::Done(answered_text(text_of_json(answer_tree(command, report))))
                    } else {
                        ProgramModel::Perform(command)
                    },
                },
            },
        }
    }
}

/// What the program does for a request, given what was found out so far: the abilities of
/// the user, and what the operation came to.
pub fn handle_request(
    request: &McpRequest,
    user_name: &str,
    ability: Option<&AppResult<Ability>>,
    outcome: Option<&AppResult<Report>>,
) -> (r: ProgramStep)
    ensures
        r@ == request_step(
            request.tool@,
            arg_models(request.arguments@),
            user_name@,
            optional_ability(ability),
            optional_report(outcome),
        ),
{
    let tool = request.tool.as_str();
    if same_text(tool, "mcp.list_tools") {
        return ProgramStep::Done(json_response(render_json(&tools_value())));
    }
    match ensure_command_supported(needed_command_of_tool(tool), ability) {
        Support::Unknown => {
            return ProgramStep::CheckAbility { user_name: user_name.to_owned() };
        },
        Support::Refused(error) => {
            return ProgramStep::Done(Err(error));
        },
        Support::Supported => {},
    }
    let command = match parse_tool(tool, request.arguments.as_slice()) {
        None => {
            return ProgramStep::Done(
                Err(
                    AppError::with_message(
                        ErrorKind::UnsupportedCommand,
                        join2("unknown tool: ", tool),
                    ),
                ),
            );
        },
        Some(Err(error)) => {
            return ProgramStep::Done(Err(error));
        },
        Some(Ok(command)) => command,
    };
    match outcome {
        None => ProgramStep::Perform(command),
        Some(Err(error)) => ProgramStep::Done(Err(error.duplicate())),
        Some(Ok(report)) => match answer_value(&command, report) {
            Some(value) => ProgramStep::Done(json_response(render_json(&value))),
            None => ProgramStep::Perform(command),
        },
    }
}

// ---------------------------------------------------------------- laws

/// The port that the tool is given, where it is accepted, is from 1 to 65535.
pub proof fn law_tool_ports_are_in_range(args: Seq<Seq<char>>)
    ensures
        mcp_onvif_meaning(args) matches Ok(CliModel::SetOnvif { onvif_port: Some(port), .. }) ==> 1
            <= port <= 65535,
{
}

/// A tool that needs a command of the camera has its operation carried out only where the
/// abilities of the user hold that command.
pub proof fn law_unsupported_tools_are_refused(
    tool: Seq<char>,
    args: Seq<Seq<char>>,
    user_name: Seq<char>,
    ability: Option<Result<AbilityModel, ErrorModel>>,
    outcome: Option<Result<ReportModel, ErrorModel>>,
)
    ensures
        request_step(tool, args, user_name, ability, outcome) is Perform ==> (tool_need(
            tool,
        ) matches Some(needed) ==> (ability matches Some(Ok(known))
            && known.supported_commands.contains(needed))),
{
}

/// Every operation of a tool is one that the tool protocol can answer.
pub proof fn law_tools_can_be_answered(tool: Seq<char>, args: Seq<Seq<char>>)
    ensures
        tool_meaning(tool, args) matches Some(Ok(command)) ==> has_tool(command),
{
}

/// A tool and the command line need the same command of the camera for an operation.
pub proof fn law_tools_need_what_the_command_line_needs(tool: Seq<char>, args: Seq<Seq<char>>)
    ensures
        tool_meaning(tool, args) matches Some(Ok(command)) ==> tool_need(tool)
            == crate::interfaces::cli_handlers::needed_command(command),
{
    reveal_strlit("reolink.get_ability");
    reveal_strlit("reolink.get_user_auth");
    reveal_strlit("reolink.get_dev_info");
    reveal_strlit("reolink.get_channel_status");
    reveal_strlit("reolink.get_ptz_status");
    reveal_strlit("reolink.get_time");
    reveal_strlit("reolink.set_time");
    reveal_strlit("reolink.get_net_port");
    reveal_strlit("reolink.set_onvif_enabled");
    reveal_strlit("reolink.snap");
    reveal_strlit("reolink.ptz_move");
    reveal_strlit("reolink.ptz_stop");
    reveal_strlit("reolink.ptz_preset_list");
    reveal_strlit("reolink.ptz_preset_goto");
    reveal_strlit("reolink.ptz_calibrate_auto");
    reveal_strlit("reolink.ptz_set_absolute");
    reveal_strlit("reolink.ptz_get_absolute");
    assert("reolink.get_ability"@.len() == 19);
    assert("reolink.get_user_auth"@.len() == 21);
    assert("reolink.get_dev_info"@.len() == 20);
    assert("reolink.get_channel_status"@.len() == 26);
    assert("reolink.get_ptz_status"@.len() == 22);
    assert("reolink.get_time"@.len() == 16);
    assert("reolink.set_time"@.len() == 16);
    assert("reolink.get_net_port"@.len() == 20);
    assert("reolink.set_onvif_enabled"@.len() == 25);
    assert("reolink.snap"@.len() == 12);
    assert("reolink.ptz_move"@.len() == 16);
    assert("reolink.ptz_stop"@.len() == 16);
    assert("reolink.ptz_preset_list"@.len() == 23);
    assert("reolink.ptz_preset_goto"@.len() == 23);
    assert("reolink.ptz_calibrate_auto"@.len() == 26);
    assert("reolink.ptz_set_absolute"@.len() == 24);
    assert("reolink.ptz_get_absolute"@.len() == 24);
    assert("reolink.get_time"@[8] == 'g' && "reolink.set_time"@[8] == 's');
    assert("reolink.ptz_move"@[8] == 'p' && "reolink.ptz_stop"@[8] == 'p');
    assert("reolink.ptz_move"@[12] == 'm' && "reolink.ptz_stop"@[12] == 's');
    assert("reolink.get_dev_info"@[12] == 'd' && "reolink.get_net_port"@[12] == 'n');
    assert("reolink.get_channel_status"@[8] == 'g' && "reolink.ptz_calibrate_auto"@[8] == 'p');
    assert("reolink.ptz_preset_list"@[19] == 'l' && "reolink.ptz_preset_goto"@[19] == 'g');
    assert("reolink.ptz_set_absolute"@[12] == 's' && "reolink.ptz_get_absolute"@[12] == 'g');
}

} // verus!
