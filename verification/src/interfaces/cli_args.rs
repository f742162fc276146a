//! The commands of the command line.
use crate::error::{error_model, result_model, AppError, AppResult, ErrorKind, ErrorModel};
use crate::interfaces::arguments::{
    arg_models, args_from, i64_arg, invalid, invalid_input, invalid_value, on_off_word,
    parse_i64_arg, parse_on_off, parse_port_arg, parse_u64_arg, parse_u8_arg, port_arg, u64_arg,
    u8_arg,
};
use crate::json::option_model;
use crate::model::{direction_named, PtzDirection};
use crate::text::{
    is_blank, join2, join3, same_text, starts_with, starts_with_text, trim,
};
use vstd::prelude::*;

verus! {

/// The tolerance of an absolute movement where none is given.
pub const DEFAULT_ABSOLUTE_RAW_TOL_COUNT: i64 = 10;

/// The time for an absolute movement where none is given.
pub const DEFAULT_ABSOLUTE_TIMEOUT_MS: u64 = 25000;

/// The speed of a movement where none is given.
pub const DEFAULT_SPEED: u8 = 32;

#[derive(Debug, Clone, PartialEq, Eq)]
pub enum CliCommand {
    Help,
    GetAbility { user_name: String },
    GetDevInfo,
    GetUserAuth { user_name: String, password: String },
    GetChannelStatus { channel: u8 },
    GetPtzStatus { channel: u8 },
    GetTime,
    GetNetPort,
    SetTime { iso8601: String },
    SetOnvif { enabled: bool, onvif_port: Option<u16> },
    Snap { channel: u8, out: Option<String> },
    PtzMove { channel: u8, direction: PtzDirection, speed: u8, duration_ms: Option<u64> },
    PtzStop { channel: u8 },
    PtzPresetList { channel: u8 },
    PtzPresetGoto { channel: u8, preset_id: u8 },
    PtzCalibrateAuto { channel: u8 },
    PtzSetAbsolute {
        channel: u8,
        pan_count: i64,
        tilt_count: i64,
        tol_count: i64,
        timeout_ms: u64,
    },
    PtzGetAbsolute { channel: u8 },
    PtzOnvifStatus { channel: u8 },
    PtzOnvifOptions { channel: u8 },
    PtzOnvifRelativeMove { channel: u8, pan_delta_count: i64, tilt_delta_count: i64 },
    Preflight { user_name: String },
}

pub ghost enum CliModel {
    Help,
    GetAbility { user_name: Seq<char> },
    GetDevInfo,
    GetUserAuth { user_name: Seq<char>, password: Seq<char> },
    GetChannelStatus { channel: u8 },
    GetPtzStatus { channel: u8 },
    GetTime,
    GetNetPort,
    SetTime { iso8601: Seq<char> },
    SetOnvif { enabled: bool, onvif_port: Option<u16> },
    Snap { channel: u8, out: Option<Seq<char>> },
    PtzMove { channel: u8, direction: PtzDirection, speed: u8, duration_ms: Option<u64> },
    PtzStop { channel: u8 },
    PtzPresetList { channel: u8 },
    PtzPresetGoto { channel: u8, preset_id: u8 },
    PtzCalibrateAuto { channel: u8 },
    PtzSetAbsolute {
        channel: u8,
        pan_count: i64,
        tilt_count: i64,
        tol_count: i64,
        timeout_ms: u64,
    },
    PtzGetAbsolute { channel: u8 },
    PtzOnvifStatus { channel: u8 },
    PtzOnvifOptions { channel: u8 },
    PtzOnvifRelativeMove { channel: u8, pan_delta_count: i64, tilt_delta_count: i64 },
    Preflight { user_name: Seq<char> },
}

impl View for CliCommand {
    type V = CliModel;

    open spec fn view(&self) -> CliModel {
        match self {
            CliCommand::Help => CliModel::Help,
            CliCommand::GetAbility { user_name } => CliModel::GetAbility { user_name: user_name@ },
            CliCommand::GetDevInfo => CliModel::GetDevInfo,
            CliCommand::GetUserAuth { user_name, password } => CliModel::GetUserAuth {
                user_name: user_name@,
                password: password@,
            },
            CliCommand::GetChannelStatus { channel } => CliModel::GetChannelStatus {
                channel: *channel,
            },
            CliCommand::GetPtzStatus { channel } => CliModel::GetPtzStatus { channel: *channel },
            CliCommand::GetTime => CliModel::GetTime,
            CliCommand::GetNetPort => CliModel::GetNetPort,
            CliCommand::SetTime { iso8601 } => CliModel::SetTime { iso8601: iso8601@ },
            CliCommand::SetOnvif { enabled, onvif_port } => CliModel::SetOnvif {
                enabled: *enabled,
                onvif_port: *onvif_port,
            },
            CliCommand::Snap { channel, out } => CliModel::Snap {
                channel: *channel,
                out: option_model(*out),
            },
            CliCommand::PtzMove { channel, direction, speed, duration_ms } => CliModel::PtzMove {
                channel: *channel,
                direction: *direction,
                speed: *speed,
                duration_ms: *duration_ms,
            },
            CliCommand::PtzStop { channel } => CliModel::PtzStop { channel: *channel },
            CliCommand::PtzPresetList { channel } => CliModel::PtzPresetList { channel: *channel },
            CliCommand::PtzPresetGoto { channel, preset_id } => CliModel::PtzPresetGoto {
                channel: *channel,
                preset_id: *preset_id,
            },
            CliCommand::PtzCalibrateAuto { channel } => CliModel::PtzCalibrateAuto {
                channel: *channel,
            },
            CliCommand::PtzSetAbsolute {
                channel,
                pan_count,
                tilt_count,
                tol_count,
                timeout_ms,
            } => CliModel::PtzSetAbsolute {
                channel: *channel,
                pan_count: *pan_count,
                tilt_count: *tilt_count,
                tol_count: *tol_count,
                timeout_ms: *timeout_ms,
            },
            CliCommand::PtzGetAbsolute { channel } => CliModel::PtzGetAbsolute {
                channel: *channel,
            },
            CliCommand::PtzOnvifStatus { channel } => CliModel::PtzOnvifStatus {
                channel: *channel,
            },
            CliCommand::PtzOnvifOptions { channel } => CliModel::PtzOnvifOptions {
                channel: *channel,
            },
            CliCommand::PtzOnvifRelativeMove { channel, pan_delta_count, tilt_delta_count } =>
                CliModel::PtzOnvifRelativeMove {
                channel: *channel,
                pan_delta_count: *pan_delta_count,
                tilt_delta_count: *tilt_delta_count,
            },
            CliCommand::Preflight { user_name } => CliModel::Preflight { user_name: user_name@ },
        }
    }
}

// ---------------------------------------------------------------- meaning

/// A user name that may be left out.
pub open spec fn user_or_admin(args: Seq<Seq<char>>) -> Seq<char> {
    if args.len() > 1 {
        args[1]
    } else {
        "admin"@
    }
}

/// A channel that may be left out.
pub open spec fn optional_channel(args: Seq<Seq<char>>, at: int) -> Result<u8, ErrorModel> {
    if at < args.len() {
        u8_arg(args[at], "channel"@)
    } else {
        Ok(0)
    }
}

/// The options of `set-onvif`: a port, which may be given again.
pub open spec fn set_onvif_options(args: Seq<Seq<char>>, at: int, port: Option<u16>) -> Result<
    Option<u16>,
    ErrorModel,
>
    decreases args.len() - at,
{
    if at < 0 || at >= args.len() {
        Ok(port)
    } else if args[at] == "--port"@ {
        if at + 1 >= args.len() {
            invalid("set-onvif --port requires <1-65535>"@)
        } else {
            match port_arg(args[at + 1], "onvif_port"@) {
                Ok(n) => set_onvif_options(args, at + 2, Some(n)),
                Err(error) => Err(error),
            }
        }
    } else {
        invalid("unknown set-onvif option: "@ + args[at])
    }
}

/// `set-onvif <on|off> [--port <1-65535>]`
pub open spec fn set_onvif_meaning(args: Seq<Seq<char>>) -> Result<CliModel, ErrorModel> {
    if args.len() == 0 {
        invalid("set-onvif requires <on|off> [--port <1-65535>]"@)
    } else {
        match on_off_word(args[0]) {
            None => invalid("set-onvif requires <on|off>"@),
            Some(enabled) => match set_onvif_options(args, 1, None) {
                Ok(onvif_port) => Ok(CliModel::SetOnvif { enabled, onvif_port }),
                Err(error) => Err(error),
            },
        }
    }
}

/// The arguments of `snap`: a channel once, and a file, which may be given again.
pub open spec fn snap_arguments(
    args: Seq<Seq<char>>,
    at: int,
    channel: Option<u8>,
    out: Option<Seq<char>>,
) -> Result<(u8, Option<Seq<char>>), ErrorModel>
    decreases args.len() - at,
{
    if at < 0 || at >= args.len() {
        Ok(
            (
                match channel {
                    Some(n) => n,
                    None => 0,
                },
                out,
            ),
        )
    } else if args[at] == "--out"@ {
        if at + 1 >= args.len() {
            invalid("snap --out requires <path>"@)
        } else if trim(args[at + 1]).len() == 0 {
            invalid("snap --out path must not be empty"@)
        } else {
            snap_arguments(args, at + 2, channel, Some(args[at + 1]))
        }
    } else if starts_with(args[at], "--"@) {
        invalid("unknown snap option: "@ + args[at])
    } else if channel is Some {
        invalid("unexpected snap argument: "@ + args[at])
    } else {
        match u8_arg(args[at], "channel"@) {
            Ok(n) => snap_arguments(args, at + 1, Some(n), out),
            Err(error) => Err(error),
        }
    }
}

/// `snap [channel] [--out path]`
pub open spec fn snap_meaning(args: Seq<Seq<char>>) -> Result<CliModel, ErrorModel> {
    match snap_arguments(args, 0, None, None) {
        Ok((channel, out)) => Ok(CliModel::Snap { channel, out }),
        Err(error) => Err(error),
    }
}

/// The options of `ptz move`, each of which may be given again.
pub open spec fn move_options(
    args: Seq<Seq<char>>,
    at: int,
    channel: u8,
    speed: u8,
    duration_ms: Option<u64>,
) -> Result<(u8, u8, Option<u64>), ErrorModel>
    decreases args.len() - at,
{
    if at < 0 || at >= args.len() {
        Ok((channel, speed, duration_ms))
    } else if args[at] == "--channel"@ {
        if at + 1 >= args.len() {
            invalid("ptz move --channel requires <u8>"@)
        } else {
            match u8_arg(args[at + 1], "channel"@) {
                Ok(n) => move_options(args, at + 2, n, speed, duration_ms),
                Err(error) => Err(error),
            }
        }
    } else if args[at] == "--speed"@ {
        if at + 1 >= args.len() {
            invalid("ptz move --speed requires <u8>"@)
        } else {
            match u8_arg(args[at + 1], "speed"@) {
                Ok(n) => move_options(args, at + 2, channel, n, duration_ms),
                Err(error) => Err(error),
            }
        }
    } else if args[at] == "--duration"@ {
        if at + 1 >= args.len() {
            invalid("ptz move --duration requires <milliseconds>"@)
        } else {
            match u64_arg(args[at + 1], "duration"@) {
                Ok(n) => move_options(args, at + 2, channel, speed, Some(n)),
                Err(error) => Err(error),
            }
        }
    } else {
        invalid("unknown ptz move option: "@ + args[at])
    }
}

/// `ptz move <direction> [--speed <1-64>] [--duration <ms>] [--channel <0-255>]`
pub open spec fn move_meaning(args: Seq<Seq<char>>) -> Result<CliModel, ErrorModel> {
    if args.len() == 0 {
        invalid("ptz move requires <direction>"@)
    } else {
        match direction_named(args[0]) {
            None => invalid("unknown PTZ direction: "@ + args[0]),
            Some(direction) => match move_options(args, 1, 0, DEFAULT_SPEED, None) {
                Ok((channel, speed, duration_ms)) => Ok(
                    CliModel::PtzMove { channel, direction, speed, duration_ms },
                ),
                Err(error) => Err(error),
            },
        }
    }
}

/// The channel of a command that takes nothing else.
pub open spec fn channel_flag(args: Seq<Seq<char>>, command_name: Seq<char>) -> Result<
    u8,
    ErrorModel,
> {
    if args.len() == 0 {
        Ok(0)
    } else if args.len() == 2 && args[0] == "--channel"@ {
        u8_arg(args[1], "channel"@)
    } else {
        invalid(command_name + " only supports optional --channel <u8>"@)
    }
}

/// `ptz preset list [--channel <0-255>]`, `ptz preset goto <preset_id> [--channel <0-255>]`
pub open spec fn preset_meaning(args: Seq<Seq<char>>) -> Result<CliModel, ErrorModel> {
    if args.len() == 0 {
        invalid("ptz preset requires one of: list, goto"@)
    } else if args[0] == "list"@ {
        match channel_flag(args.skip(1), "ptz preset list"@) {
            Ok(channel) => Ok(CliModel::PtzPresetList { channel }),
            Err(error) => Err(error),
        }
    } else if args[0] == "goto"@ {
        if args.len() < 2 {
            invalid("ptz preset goto requires <preset_id>"@)
        } else {
            match u8_arg(args[1], "preset_id"@) {
                Err(error) => Err(error),
                Ok(preset_id) => match channel_flag(args.skip(2), "ptz preset goto"@) {
                    Ok(channel) => Ok(CliModel::PtzPresetGoto { channel, preset_id }),
                    Err(error) => Err(error),
                },
            }
        }
    } else {
        invalid("unknown ptz preset action: "@ + args[0])
    }
}

/// `ptz calibrate auto [--channel <0-255>]`
pub open spec fn calibrate_meaning(args: Seq<Seq<char>>) -> Result<CliModel, ErrorModel> {
    if args.len() == 0 {
        invalid("ptz calibrate requires one of: auto"@)
    } else if args[0] == "auto"@ {
        match channel_flag(args.skip(1), "ptz calibrate auto"@) {
            Ok(channel) => Ok(CliModel::PtzCalibrateAuto { channel }),
            Err(error) => Err(error),
        }
    } else {
        invalid("unknown ptz calibrate action: "@ + args[0])
    }
}

/// The options of `ptz set-absolute`, each of which may be given again.
pub open spec fn absolute_options(
    args: Seq<Seq<char>>,
    at: int,
    channel: u8,
    tol_count: i64,
    timeout_ms: u64,
) -> Result<(u8, i64, u64), ErrorModel>
    decreases args.len() - at,
{
    if at < 0 || at >= args.len() {
        Ok((channel, tol_count, timeout_ms))
    } else if args[at] == "--channel"@ {
        if at + 1 >= args.len() {
            invalid("ptz set-absolute --channel requires <u8>"@)
        } else {
            match u8_arg(args[at + 1], "channel"@) {
                Ok(n) => absolute_options(args, at + 2, n, tol_count, timeout_ms),
                Err(error) => Err(error),
            }
        }
    } else if args[at] == "--tol-count"@ {
        if at + 1 >= args.len() {
            invalid("ptz set-absolute --tol-count requires <i64>"@)
        } else {
            match i64_arg(args[at + 1], "tol_count"@) {
                Ok(n) => absolute_options(args, at + 2, channel, n, timeout_ms),
                Err(error) => Err(error),
            }
        }
    } else if args[at] == "--timeout-ms"@ {
        if at + 1 >= args.len() {
            invalid("ptz set-absolute --timeout-ms requires <u64>"@)
        } else {
            match u64_arg(args[at + 1], "timeout_ms"@) {
                Ok(n) => absolute_options(args, at + 2, channel, tol_count, n),
                Err(error) => Err(error),
            }
        }
    } else {
        invalid("unknown ptz set-absolute option: "@ + args[at])
    }
}

/// `ptz set-absolute <pan_count> <tilt_count> [--tol-count <i64>] [--timeout-ms <u64>]
/// [--channel <0-255>]`
pub open spec fn absolute_meaning(args: Seq<Seq<char>>) -> Result<CliModel, ErrorModel> {
    if args.len() < 2 {
        invalid("ptz set-absolute requires <pan_count> <tilt_count>"@)
    } else {
        match i64_arg(args[0], "pan_count"@) {
            Err(error) => Err(error),
            Ok(pan_count) => match i64_arg(args[1], "tilt_count"@) {
                Err(error) => Err(error),
                Ok(tilt_count) => match absolute_options(
                    args,
                    2,
                    0,
                    DEFAULT_ABSOLUTE_RAW_TOL_COUNT,
                    DEFAULT_ABSOLUTE_TIMEOUT_MS,
                ) {
                    Err(error) => Err(error),
                    Ok((channel, tol_count, timeout_ms)) => Ok(
                        CliModel::PtzSetAbsolute {
                            channel,
                            pan_count,
                            tilt_count,
                            tol_count,
                            timeout_ms,
                        },
                    ),
                },
            },
        }
    }
}

/// `ptz onvif status [--channel <0-255>]`, `ptz onvif options [--channel <0-255>]`,
/// `ptz onvif relative-move <pan_delta_count> <tilt_delta_count> [--channel <0-255>]`
pub open spec fn onvif_meaning(args: Seq<Seq<char>>) -> Result<CliModel, ErrorModel> {
    if args.len() == 0 {
        invalid("ptz onvif requires one of: status, options, relative-move"@)
    } else if args[0] == "status"@ {
        match channel_flag(args.skip(1), "ptz onvif status"@) {
            Ok(channel) => Ok(CliModel::PtzOnvifStatus { channel }),
            Err(error) => Err(error),
        }
    } else if args[0] == "options"@ {
        match channel_flag(args.skip(1), "ptz onvif options"@) {
            Ok(channel) => Ok(CliModel::PtzOnvifOptions { channel }),
            Err(error) => Err(error),
        }
    } else if args[0] == "relative-move"@ {
        if args.len() < 3 {
            invalid("ptz onvif relative-move requires <pan_delta_count> <tilt_delta_count>"@)
        } else {
            match i64_arg(args[1], "pan_delta_count"@) {
                Err(error) => Err(error),
                Ok(pan_delta_count) => match i64_arg(args[2], "tilt_delta_count"@) {
                    Err(error) => Err(error),
                    Ok(tilt_delta_count) => match channel_flag(
                        args.skip(3),
                        "ptz onvif relative-move"@,
                    ) {
                        Ok(channel) => Ok(
                            CliModel::PtzOnvifRelativeMove {
                                channel,
                                pan_delta_count,
                                tilt_delta_count,
                            },
                        ),
                        Err(error) => Err(error),
                    },
                },
            }
        }
    } else {
        invalid("unknown ptz onvif action: "@ + args[0])
    }
}

/// The commands that begin with `ptz`.
pub open spec fn ptz_meaning(args: Seq<Seq<char>>) -> Result<CliModel, ErrorModel> {
    if args.len() == 0 {
        invalid(
            "ptz requires one of: move, stop, preset, calibrate, set-absolute, get-absolute"@,
        )
    } else if args[0] == "move"@ {
        move_meaning(args.skip(1))
    } else if args[0] == "stop"@ {
        match channel_flag(args.skip(1), "ptz stop"@) {
            Ok(channel) => Ok(CliModel::PtzStop { channel }),
            Err(error) => Err(error),
        }
    } else if args[0] == "preset"@ {
        preset_meaning(args.skip(1))
    } else if args[0] == "calibrate"@ {
        calibrate_meaning(args.skip(1))
    } else if args[0] == "set-absolute"@ {
        absolute_meaning(args.skip(1))
    } else if args[0] == "get-absolute"@ {
        match channel_flag(args.skip(1), "ptz get-absolute"@) {
            Ok(channel) => Ok(CliModel::PtzGetAbsolute { channel }),
            Err(error) => Err(error),
        }
    } else if args[0] == "onvif"@ {
        onvif_meaning(args.skip(1))
    } else {
        invalid("unknown ptz action: "@ + args[0])
    }
}

/// What the arguments of the command line mean.
pub open spec fn cli_meaning(args: Seq<Seq<char>>) -> Result<CliModel, ErrorModel> {
    if args.len() == 0 || args[0] == "help"@ || args[0] == "--help"@ || args[0] == "-h"@ {
        Ok(CliModel::Help)
    } else if args[0] == "get-ability"@ {
        Ok(CliModel::GetAbility { user_name: user_or_admin(args) })
    } else if args[0] == "get-dev-info"@ {
        Ok(CliModel::GetDevInfo)
    } else if args[0] == "get-user-auth"@ {
        if args.len() < 3 {
            invalid("get-user-auth requires <user> <password>"@)
        } else {
            Ok(CliModel::GetUserAuth { user_name: args[1], password: args[2] })
        }
    } else if args[0] == "get-channel-status"@ {
        match optional_channel(args, 1) {
            Ok(channel) => Ok(CliModel::GetChannelStatus { channel }),
            Err(error) => Err(error),
        }
    } else if args[0] == "get-ptz-status"@ {
        match optional_channel(args, 1) {
            Ok(channel) => Ok(CliModel::GetPtzStatus { channel }),
            Err(error) => Err(error),
        }
    } else if args[0] == "get-time"@ {
        Ok(CliModel::GetTime)
    } else if args[0] == "get-net-port"@ {
        Ok(CliModel::GetNetPort)
    } else if args[0] == "set-time"@ {
        if args.len() < 2 {
            invalid("set-time requires <iso8601>"@)
        } else {
            Ok(CliModel::SetTime { iso8601: args[1] })
        }
    } else if args[0] == "set-onvif"@ {
        set_onvif_meaning(args.skip(1))
    } else if args[0] == "snap"@ {
        snap_meaning(args.skip(1))
    } else if args[0] == "ptz"@ {
        ptz_meaning(args.skip(1))
    } else if args[0] == "preflight"@ {
        Ok(CliModel::Preflight { user_name: user_or_admin(args) })
    } else {
        Err(error_model(ErrorKind::UnsupportedCommand, "unknown subcommand: "@ + args[0]))
    }
}

// ---------------------------------------------------------------- parsing

fn parse_set_onvif_args(args: &[String]) -> (r: AppResult<CliCommand>)
    ensures
        result_model(r) == set_onvif_meaning(arg_models(args@)),
{
    if args.len() == 0 {
        return Err(invalid_input("set-onvif requires <on|off> [--port <1-65535>]"));
    }
    let enabled = match parse_on_off(args[0].as_str()) {
        Some(enabled) => enabled,
        None => {
            return Err(invalid_input("set-onvif requires <on|off>"));
        },
    };
    let mut onvif_port: Option<u16> = None;
    let mut index: usize = 1;
    while index < args.len()
        invariant
            1 <= index,
            args.len() > 0,
            on_off_word(arg_models(args@)[0]) == Some(enabled),
            set_onvif_options(arg_models(args@), 1, None) == set_onvif_options(
                arg_models(args@),
                index as int,
                onvif_port,
            ),
        decreases args.len() - index,
    {
        if same_text(args[index].as_str(), "--port") {
            if args.len() - index < 2 {
                return Err(invalid_input("set-onvif --port requires <1-65535>"));
            }
            match parse_port_arg(args[index + 1].as_str(), "onvif_port") {
                Ok(n) => {
                    onvif_port = Some(n);
                },
                Err(error) => {
                    return Err(error);
                },
            }
            index = index + 2;
        } else {
            return Err(invalid_value("unknown set-onvif option: ", args[index].as_str()));
        }
    }
    Ok(CliCommand::SetOnvif { enabled, onvif_port })
}

fn parse_optional_channel(args: &[String], at: usize) -> (r: AppResult<u8>)
    ensures
        result_model(r) == optional_channel(arg_models(args@), at as int),
{
    if at < args.len() {
        parse_u8_arg(args[at].as_str(), "channel")
    } else {
        Ok(0)
    }
}

fn parse_snap_args(args: &[String]) -> (r: AppResult<CliCommand>)
    ensures
        result_model(r) == snap_meaning(arg_models(args@)),
{
    let mut channel: Option<u8> = None;
    let mut out: Option<String> = None;
    let mut index: usize = 0;
    while index < args.len()
        invariant
            snap_arguments(arg_models(args@), 0, None, None) == snap_arguments(
                arg_models(args@),
                index as int,
                channel,
                option_model(out),
            ),
        decreases args.len() - index,
    {
        let arg = args[index].as_str();
        if same_text(arg, "--out") {
            if args.len() - index < 2 {
                return Err(invalid_input("snap --out requires <path>"));
            }
            if is_blank(args[index + 1].as_str()) {
                return Err(invalid_input("snap --out path must not be empty"));
            }
            out = Some(args[index + 1].clone());
            index = index + 2;
        } else if starts_with_text(arg, "--") {
            return Err(invalid_value("unknown snap option: ", arg));
        } else if channel.is_some() {
            return Err(invalid_value("unexpected snap argument: ", arg));
        } else {
            match parse_u8_arg(arg, "channel") {
                Ok(n) => {
                    channel = Some(n);
                },
                Err(error) => {
                    return Err(error);
                },
            }
            index = index + 1;
        }
    }
    let channel: u8 = match channel {
        Some(n) => n,
        None => 0,
    };
    Ok(CliCommand::Snap { channel, out })
}

fn parse_ptz_move_args(args: &[String]) -> (r: AppResult<CliCommand>)
    ensures
        result_model(r) == move_meaning(arg_models(args@)),
{
    if args.len() == 0 {
        return Err(invalid_input("ptz move requires <direction>"));
    }
    let direction = match PtzDirection::parse(args[0].as_str()) {
        Some(direction) => direction,
        None => {
            return Err(invalid_value("unknown PTZ direction: ", args[0].as_str()));
        },
    };
    let mut channel: u8 = 0;
    let mut speed: u8 = DEFAULT_SPEED;
    let mut duration_ms: Option<u64> = None;
    let mut index: usize = 1;
    while index < args.len()
        invariant
            1 <= index,
            args.len() > 0,
            direction_named(arg_models(args@)[0]) == Some(direction),
            move_options(arg_models(args@), 1, 0, DEFAULT_SPEED, None) == move_options(
                arg_models(args@),
                index as int,
                channel,
                speed,
                duration_ms,
            ),
        decreases args.len() - index,
    {
        let arg = args[index].as_str();
        let has_value = args.len() - index >= 2;
        if same_text(arg, "--channel") {
            if !has_value {
                return Err(invalid_input("ptz move --channel requires <u8>"));
            }
            match parse_u8_arg(args[index + 1].as_str(), "channel") {
                Ok(n) => {
                    channel = n;
                },
                Err(error) => {
                    return Err(error);
                },
            }
        } else if same_text(arg, "--speed") {
            if !has_value {
                return Err(invalid_input("ptz move --speed requires <u8>"));
            }
            match parse_u8_arg(args[index + 1].as_str(), "speed") {
                Ok(n) => {
                    speed = n;
                },
                Err(error) => {
                    return Err(error);
                },
            }
        } else if same_text(arg, "--duration") {
            if !has_value {
                return Err(invalid_input("ptz move --duration requires <milliseconds>"));
            }
            match parse_u64_arg(args[index + 1].as_str(), "duration") {
                Ok(n) => {
                    duration_ms = Some(n);
                },
                Err(error) => {
                    return Err(error);
                },
            }
        } else {
            return Err(invalid_value("unknown ptz move option: ", arg));
        }
        index = index + 2;
    }
    Ok(CliCommand::PtzMove { channel, direction, speed, duration_ms })
}

fn parse_ptz_channel_flag(args: &[String], command_name: &str) -> (r: AppResult<u8>)
    ensures
        result_model(r) == channel_flag(arg_models(args@), command_name@),
{
    if args.len() == 0 {
        return Ok(0);
    }
    if args.len() == 2 && same_text(args[0].as_str(), "--channel") {
        return parse_u8_arg(args[1].as_str(), "channel");
    }
    Err(
        AppError::with_message(
            ErrorKind::InvalidInput,
            join2(command_name, " only supports optional --channel <u8>"),
        ),
    )
}

fn parse_ptz_preset_args(args: &[String]) -> (r: AppResult<CliCommand>)
    ensures
        result_model(r) == preset_meaning(arg_models(args@)),
{
    if args.len() == 0 {
        return Err(invalid_input("ptz preset requires one of: list, goto"));
    }
    if same_text(args[0].as_str(), "list") {
        return match parse_ptz_channel_flag(args_from(args, 1), "ptz preset list") {
            Ok(channel) => Ok(CliCommand::PtzPresetList { channel }),
            Err(error) => Err(error),
        };
    }
    if same_text(args[0].as_str(), "goto") {
        if args.len() < 2 {
            return Err(invalid_input("ptz preset goto requires <preset_id>"));
        }
        let preset_id: u8 = match parse_u8_arg(args[1].as_str(), "preset_id") {
            Ok(n) => n,
            Err(error) => {
                return Err(error);
            },
        };
        return match parse_ptz_channel_flag(args_from(args, 2), "ptz preset goto") {
            Ok(channel) => Ok(CliCommand::PtzPresetGoto { channel, preset_id }),
            Err(error) => Err(error),
        };
    }
    Err(invalid_value("unknown ptz preset action: ", args[0].as_str()))
}

fn parse_ptz_calibrate_args(args: &[String]) -> (r: AppResult<CliCommand>)
    ensures
        result_model(r) == calibrate_meaning(arg_models(args@)),
{
    if args.len() == 0 {
        return Err(invalid_input("ptz calibrate requires one of: auto"));
    }
    if same_text(args[0].as_str(), "auto") {
        return match parse_ptz_channel_flag(args_from(args, 1), "ptz calibrate auto") {
            Ok(channel) => Ok(CliCommand::PtzCalibrateAuto { channel }),
            Err(error) => Err(error),
        };
    }
    Err(invalid_value("unknown ptz calibrate action: ", args[0].as_str()))
}

fn parse_ptz_set_absolute_args(args: &[String]) -> (r: AppResult<CliCommand>)
    ensures
        result_model(r) == absolute_meaning(arg_models(args@)),
{
    if args.len() < 2 {
        return Err(invalid_input("ptz set-absolute requires <pan_count> <tilt_count>"));
    }
    let pan_count: i64 = match parse_i64_arg(args[0].as_str(), "pan_count") {
        Ok(n) => n,
        Err(error) => {
            return Err(error);
        },
    };
    let tilt_count: i64 = match parse_i64_arg(args[1].as_str(), "tilt_count") {
        Ok(n) => n,
        Err(error) => {
            return Err(error);
        },
    };
    let mut channel: u8 = 0;
    let mut tol_count: i64 = DEFAULT_ABSOLUTE_RAW_TOL_COUNT;
    let mut timeout_ms: u64 = DEFAULT_ABSOLUTE_TIMEOUT_MS;
    let mut index: usize = 2;
    while index < args.len()
        invariant
            2 <= index,
            args.len() >= 2,
            i64_arg(arg_models(args@)[0], "pan_count"@) == Ok::<i64, ErrorModel>(pan_count),
            i64_arg(arg_models(args@)[1], "tilt_count"@) == Ok::<i64, ErrorModel>(tilt_count),
            absolute_options(
                arg_models(args@),
                2,
                0,
                DEFAULT_ABSOLUTE_RAW_TOL_COUNT,
                DEFAULT_ABSOLUTE_TIMEOUT_MS,
            ) == absolute_options(
                arg_models(args@),
                index as int,
                channel,
                tol_count,
                timeout_ms,
            ),
        decreases args.len() - index,
    {
        let arg = args[index].as_str();
        let has_value = args.len() - index >= 2;
        if same_text(arg, "--channel") {
            if !has_value {
                return Err(invalid_input("ptz set-absolute --channel requires <u8>"));
            }
            match parse_u8_arg(args[index + 1].as_str(), "channel") {
                Ok(n) => {
                    channel = n;
                },
                Err(error) => {
                    return Err(error);
                },
            }
        } else if same_text(arg, "--tol-count") {
            if !has_value {
                return Err(invalid_input("ptz set-absolute --tol-count requires <i64>"));
            }
            match parse_i64_arg(args[index + 1].as_str(), "tol_count") {
                Ok(n) => {
                    tol_count = n;
                },
                Err(error) => {
                    return Err(error);
                },
            }
        } else if same_text(arg, "--timeout-ms") {
            if !has_value {
                return Err(invalid_input("ptz set-absolute --timeout-ms requires <u64>"));
            }
            match parse_u64_arg(args[index + 1].as_str(), "timeout_ms") {
                Ok(n) => {
                    timeout_ms = n;
                },
                Err(error) => {
                    return Err(error);
                },
            }
        } else {
            return Err(invalid_value("unknown ptz set-absolute option: ", arg));
        }
        index = index + 2;
    }
    Ok(CliCommand::PtzSetAbsolute { channel, pan_count, tilt_count, tol_count, timeout_ms })
}

fn parse_ptz_onvif_args(args: &[String]) -> (r: AppResult<CliCommand>)
    ensures
        result_model(r) == onvif_meaning(arg_models(args@)),
{
    if args.len() == 0 {
        return Err(invalid_input("ptz onvif requires one of: status, options, relative-move"));
    }
    if same_text(args[0].as_str(), "status") {
        return match parse_ptz_channel_flag(args_from(args, 1), "ptz onvif status") {
            Ok(channel) => Ok(CliCommand::PtzOnvifStatus { channel }),
            Err(error) => Err(error),
        };
    }
    if same_text(args[0].as_str(), "options") {
        return match parse_ptz_channel_flag(args_from(args, 1), "ptz onvif options") {
            Ok(channel) => Ok(CliCommand::PtzOnvifOptions { channel }),
            Err(error) => Err(error),
        };
    }
    if same_text(args[0].as_str(), "relative-move") {
        if args.len() < 3 {
            return Err(
                invalid_input(
                    "ptz onvif relative-move requires <pan_delta_count> <tilt_delta_count>",
                ),
            );
        }
        let pan_delta_count: i64 = match parse_i64_arg(args[1].as_str(), "pan_delta_count") {
            Ok(n) => n,
            Err(error) => {
                return Err(error);
            },
        };
        let tilt_delta_count: i64 = match parse_i64_arg(args[2].as_str(), "tilt_delta_count") {
            Ok(n) => n,
            Err(error) => {
                return Err(error);
            },
        };
        return match parse_ptz_channel_flag(args_from(args, 3), "ptz onvif relative-move") {
            Ok(channel) => Ok(
                CliCommand::PtzOnvifRelativeMove { channel, pan_delta_count, tilt_delta_count },
            ),
            Err(error) => Err(error),
        };
    }
    Err(invalid_value("unknown ptz onvif action: ", args[0].as_str()))
}

fn parse_ptz_args(args: &[String]) -> (r: AppResult<CliCommand>)
    ensures
        result_model(r) == ptz_meaning(arg_models(args@)),
{
    if args.len() == 0 {
        return Err(
            invalid_input(
                "ptz requires one of: move, stop, preset, calibrate, set-absolute, get-absolute",
            ),
        );
    }
    let action = args[0].as_str();
    let rest = args_from(args, 1);
    if same_text(action, "move") {
        parse_ptz_move_args(rest)
    } else if same_text(action, "stop") {
        match parse_ptz_channel_flag(rest, "ptz stop") {
            Ok(channel) => Ok(CliCommand::PtzStop { channel }),
            Err(error) => Err(error),
        }
    } else if same_text(action, "preset") {
        parse_ptz_preset_args(rest)
    } else if same_text(action, "calibrate") {
        parse_ptz_calibrate_args(rest)
    } else if same_text(action, "set-absolute") {
        parse_ptz_set_absolute_args(rest)
    } else if same_text(action, "get-absolute") {
        match parse_ptz_channel_flag(rest, "ptz get-absolute") {
            Ok(channel) => Ok(CliCommand::PtzGetAbsolute { channel }),
            Err(error) => Err(error),
        }
    } else if same_text(action, "onvif") {
        parse_ptz_onvif_args(rest)
    } else {
        Err(invalid_value("unknown ptz action: ", action))
    }
}

fn user_argument(args: &[String]) -> (r: String)
    ensures
        r@ == user_or_admin(arg_models(args@)),
{
    if args.len() > 1 {
        args[1].clone()
    } else {
        "admin".to_owned()
    }
}

/// What the arguments of the command line mean.
pub fn parse_args(args: &[String]) -> (r: AppResult<CliCommand>)
    ensures
        result_model(r) == cli_meaning(arg_models(args@)),
{
    if args.len() == 0 {
        return Ok(CliCommand::Help);
    }
    let subcommand = args[0].as_str();
    if same_text(subcommand, "help") || same_text(subcommand, "--help") || same_text(
        subcommand,
        "-h",
    ) {
        Ok(CliCommand::Help)
    } else if same_text(subcommand, "get-ability") {
        Ok(CliCommand::GetAbility { user_name: user_argument(args) })
    } else if same_text(subcommand, "get-dev-info") {
        Ok(CliCommand::GetDevInfo)
    } else if same_text(subcommand, "get-user-auth") {
        if args.len() < 3 {
            return Err(invalid_input("get-user-auth requires <user> <password>"));
        }
        Ok(CliCommand::GetUserAuth { user_name: args[1].clone(), password: args[2].clone() })
    } else if same_text(subcommand, "get-channel-status") {
        match parse_optional_channel(args, 1) {
            Ok(channel) => Ok(CliCommand::GetChannelStatus { channel }),
            Err(error) => Err(error),
        }
    } else if same_text(subcommand, "get-ptz-status") {
        match parse_optional_channel(args, 1) {
            Ok(channel) => Ok(CliCommand::GetPtzStatus { channel }),
            Err(error) => Err(error),
        }
    } else if same_text(subcommand, "get-time") {
        Ok(CliCommand::GetTime)
    } else if same_text(subcommand, "get-net-port") {
        Ok(CliCommand::GetNetPort)
    } else if same_text(subcommand, "set-time") {
        if args.len() < 2 {
            return Err(invalid_input("set-time requires <iso8601>"));
        }
        Ok(CliCommand::SetTime { iso8601: args[1].clone() })
    } else if same_text(subcommand, "set-onvif") {
        parse_set_onvif_args(args_from(args, 1))
    } else if same_text(subcommand, "snap") {
        parse_snap_args(args_from(args, 1))
    } else if same_text(subcommand, "ptz") {
        parse_ptz_args(args_from(args, 1))
    } else if same_text(subcommand, "preflight") {
        Ok(CliCommand::Preflight { user_name: user_argument(args) })
    } else {
        Err(
            AppError::with_message(
                ErrorKind::UnsupportedCommand,
                join2("unknown subcommand: ", subcommand),
            ),
        )
    }
}

// ---------------------------------------------------------------- help

/// The commands, as the help text lists them.
pub open spec fn usage() -> Seq<Seq<char>> {
    seq![
        "reocli help"@,
        "reocli get-user-auth <user> <password>"@,
        "reocli get-ability [user]"@,
        "reocli get-dev-info"@,
        "reocli get-channel-status [channel]"@,
        "reocli get-ptz-status [channel]"@,
        "reocli get-time"@,
        "reocli get-net-port"@,
        "reocli set-time <iso8601>"@,
        "reocli set-onvif <on|off> [--port <1-65535>]"@,
        "reocli snap [channel] [--out path]"@,
        "reocli ptz move <direction> [--speed <1-64>] [--duration <ms>] [--channel <0-255>]"@,
        "reocli ptz stop [--channel <0-255>]"@,
        "reocli ptz preset list [--channel <0-255>]"@,
        "reocli ptz preset goto <preset_id> [--channel <0-255>]"@,
        "reocli ptz calibrate auto [--channel <0-255>]"@,
        "reocli ptz set-absolute <pan_count> <tilt_count> [--tol-count <i64>] [--timeout-ms <u64>] [--channel <0-255>]"@,
        "reocli ptz get-absolute [--channel <0-255>]"@,
        "reocli preflight [user]"@,
    ]
}

pub open spec fn text_models(texts: Seq<&'static str>) -> Seq<Seq<char>> {
    Seq::new(texts.len(), |i: int| texts[i]@)
}

/// The commands, as the help text lists them.
pub fn usage_lines() -> (r: Vec<&'static str>)
    ensures
        text_models(r@) == usage(),
{
    let lines: Vec<&'static str> = vec![
        "reocli help",
        "reocli get-user-auth <user> <password>",
        "reocli get-ability [user]",
        "reocli get-dev-info",
        "reocli get-channel-status [channel]",
        "reocli get-ptz-status [channel]",
        "reocli get-time",
        "reocli get-net-port",
        "reocli set-time <iso8601>",
        "reocli set-onvif <on|off> [--port <1-65535>]",
        "reocli snap [channel] [--out path]",
        "reocli ptz move <direction> [--speed <1-64>] [--duration <ms>] [--channel <0-255>]",
        "reocli ptz stop [--channel <0-255>]",
        "reocli ptz preset list [--channel <0-255>]",
        "reocli ptz preset goto <preset_id> [--channel <0-255>]",
        "reocli ptz calibrate auto [--channel <0-255>]",
        "reocli ptz set-absolute <pan_count> <tilt_count> [--tol-count <i64>] [--timeout-ms <u64>] [--channel <0-255>]",
        "reocli ptz get-absolute [--channel <0-255>]",
        "reocli preflight [user]",
    ];
    assert(text_models(lines@) =~= usage());
    lines
}

/// The help text: a heading, and each of the lines, indented.
pub open spec fn help_of(lines: Seq<Seq<char>>) -> Seq<char>
    decreases lines.len(),
{
    if lines.len() == 0 {
        "Usage:"@
    } else {
        help_of(lines.drop_last()) + "\n  "@ + lines.last()
    }
}

pub fn help_text() -> (r: String)
    ensures
        r@ == help_of(usage()),
{
    let lines = usage_lines();
    let mut text = "Usage:".to_owned();
    let mut i: usize = 0;
    proof {
        assert(text_models(lines@).take(0) =~= Seq::empty());
    }
    while i < lines.len()
        invariant
            i <= lines.len(),
            text_models(lines@) == usage(),
            text@ == help_of(usage().take(i as int)),
        decreases lines.len() - i,
    {
        proof {
            let next = usage().take(i + 1);
            assert(next.drop_last() =~= usage().take(i as int));
            assert(next.last() == lines@[i as int]@);
        }
        text = join3(text.as_str(), "\n  ", lines[i]);
        i = i + 1;
    }
    assert(usage().take(i as int) =~= usage());
    text
}

// ---------------------------------------------------------------- laws

/// Options of a movement may come in any order: a speed and a channel mean the same either
/// way.
pub proof fn law_move_options_commute(direction: Seq<char>, speed: Seq<char>, channel: Seq<char>)
    requires
        direction_named(direction) is Some,
        u8_arg(speed, "speed"@) is Ok,
        u8_arg(channel, "channel"@) is Ok,
    ensures
        move_meaning(seq![direction, "--speed"@, speed, "--channel"@, channel]) == move_meaning(
            seq![direction, "--channel"@, channel, "--speed"@, speed],
        ),
        move_meaning(seq![direction, "--speed"@, speed, "--channel"@, channel]) is Ok,
{
    reveal_with_fuel(move_options, 4);
    reveal_strlit("--speed");
    reveal_strlit("--channel");
    assert("--speed"@ != "--channel"@) by {
        assert("--speed"@.len() != "--channel"@.len());
    }
}

/// A command of the line either means something or is refused as input that is not valid or
/// a command that does not exist.
pub proof fn law_cli_errors(args: Seq<Seq<char>>)
    ensures
        cli_meaning(args) matches Err(error) ==> error.kind == ErrorKind::InvalidInput || error.kind
            == ErrorKind::UnsupportedCommand,
{
    if args.len() > 0 {
        lemma_onvif_errors(args.skip(1), 1, None);
        lemma_snap_errors(args.skip(1), 0, None, None);
        if args.len() > 1 {
            let rest = args.skip(1).skip(1);
            lemma_move_errors(rest, 1, 0, DEFAULT_SPEED, None);
            lemma_absolute_errors(
                rest,
                2,
                0,
                DEFAULT_ABSOLUTE_RAW_TOL_COUNT,
                DEFAULT_ABSOLUTE_TIMEOUT_MS,
            );
        }
    }
}

proof fn lemma_onvif_errors(args: Seq<Seq<char>>, at: int, port: Option<u16>)
    ensures
        set_onvif_options(args, at, port) matches Err(error) ==> error.kind
            == ErrorKind::InvalidInput,
    decreases args.len() - at,
{
    if 0 <= at && at + 1 < args.len() {
        if let Ok(n) = port_arg(args[at + 1], "onvif_port"@) {
            lemma_onvif_errors(args, at + 2, Some(n));
        }
    }
}

proof fn lemma_snap_errors(
    args: Seq<Seq<char>>,
    at: int,
    channel: Option<u8>,
    out: Option<Seq<char>>,
)
    ensures
        snap_arguments(args, at, channel, out) matches Err(error) ==> error.kind
            == ErrorKind::InvalidInput,
    decreases args.len() - at,
{
    if 0 <= at && at < args.len() {
        if at + 1 < args.len() {
            lemma_snap_errors(args, at + 2, channel, Some(args[at + 1]));
        }
        if let Ok(n) = u8_arg(args[at], "channel"@) {
            lemma_snap_errors(args, at + 1, Some(n), out);
        }
    }
}

proof fn lemma_move_errors(
    args: Seq<Seq<char>>,
    at: int,
    channel: u8,
    speed: u8,
    duration_ms: Option<u64>,
)
    ensures
        move_options(args, at, channel, speed, duration_ms) matches Err(error) ==> error.kind
            == ErrorKind::InvalidInput,
    decreases args.len() - at,
{
    if 0 <= at && at + 1 < args.len() {
        if let Ok(n) = u8_arg(args[at + 1], "channel"@) {
            lemma_move_errors(args, at + 2, n, speed, duration_ms);
        }
        if let Ok(n) = u8_arg(args[at + 1], "speed"@) {
            lemma_move_errors(args, at + 2, channel, n, duration_ms);
        }
        if let Ok(n) = u64_arg(args[at + 1], "duration"@) {
            lemma_move_errors(args, at + 2, channel, speed, Some(n));
        }
    }
}

proof fn lemma_absolute_errors(
    args: Seq<Seq<char>>,
    at: int,
    channel: u8,
    tol_count: i64,
    timeout_ms: u64,
)
    ensures
        absolute_options(args, at, channel, tol_count, timeout_ms) matches Err(error) ==> error.kind
            == ErrorKind::InvalidInput,
    decreases args.len() - at,
{
    if 0 <= at && at + 1 < args.len() {
        if let Ok(n) = u8_arg(args[at + 1], "channel"@) {
            lemma_absolute_errors(args, at + 2, n, tol_count, timeout_ms);
        }
        if let Ok(n) = i64_arg(args[at + 1], "tol_count"@) {
            lemma_absolute_errors(args, at + 2, channel, n, timeout_ms);
        }
        if let Ok(n) = u64_arg(args[at + 1], "timeout_ms"@) {
            lemma_absolute_errors(args, at + 2, channel, tol_count, n);
        }
    }
}

} // verus!
