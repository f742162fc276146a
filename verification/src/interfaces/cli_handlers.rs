//! The command line: what the program does for its arguments, and what it prints.
use crate::command::{command_name, CgiCommand};
use crate::error::{AppResult, ErrorModel};
use crate::interfaces::arguments::arg_models;
use crate::interfaces::cli_args::{
    cli_meaning, help_of, help_text, parse_args, usage, CliCommand, CliModel,
};
use crate::interfaces::report::{
    ensure_command_supported, fits, optional_ability, optional_report, support_of,
    ProgramModel, ProgramStep, Report, ReportModel, Support,
    SupportModel,
};
use crate::json::option_model;
use crate::model::{
    calibrated_state, direction_op, Ability, AbilityModel, NetPortSettings, NumericRange,
    PtzStatus, StatusModel,
};
use crate::reolink::onvif::{
    OnvifMoveStatus, OnvifPtzConfigurationOptions, OnvifStatusFields, OptionsModel,
    StatusFieldsModel,
};
use crate::reolink::ptz::{preset_model, PresetList};
use crate::text::{dec, dec_i64, dec_int, dec_u64, join2, join3};
use crate::usecases::ptz_calibration::{CalibrationModel, PtzCalibrationReport};
use vstd::prelude::*;

verus! {

// ---------------------------------------------------------------- values

pub open spec fn flag_text(flag: bool) -> Seq<char> {
    if flag {
        "true"@
    } else {
        "false"@
    }
}

/// A number, or `unknown`.
pub open spec fn int_or_unknown(value: Option<i64>) -> Seq<char> {
    match value {
        Some(n) => dec_int(n as int),
        None => "unknown"@,
    }
}

pub open spec fn port_or_unknown(value: Option<u16>) -> Seq<char> {
    match value {
        Some(n) => dec(n as nat),
        None => "unknown"@,
    }
}

pub open spec fn flag_or_unknown(value: Option<bool>) -> Seq<char> {
    match value {
        Some(flag) => flag_text(flag),
        None => "unknown"@,
    }
}

pub open spec fn text_or_unknown(value: Option<Seq<char>>) -> Seq<char> {
    match value {
        Some(text) => text,
        None => "unknown"@,
    }
}

/// The ends of a range, or `unknown`.
pub open spec fn range_or_unknown(value: Option<NumericRange>) -> Seq<char> {
    match value {
        Some(range) => dec_int(range.min as int) + ".."@ + dec_int(range.max as int),
        None => "unknown"@,
    }
}

fn format_flag(flag: bool) -> (r: &'static str)
    ensures
        r@ == flag_text(flag),
{
    if flag {
        "true"
    } else {
        "false"
    }
}

pub fn format_optional_i64(value: Option<i64>) -> (r: String)
    ensures
        r@ == int_or_unknown(value),
{
    match value {
        Some(n) => dec_i64(n),
        None => "unknown".to_owned(),
    }
}

fn format_optional_u16(value: Option<u16>) -> (r: String)
    ensures
        r@ == port_or_unknown(value),
{
    match value {
        Some(n) => dec_u64(n as u64),
        None => "unknown".to_owned(),
    }
}

pub fn format_optional_bool(value: Option<bool>) -> (r: &'static str)
    ensures
        r@ == flag_or_unknown(value),
{
    match value {
        Some(flag) => format_flag(flag),
        None => "unknown",
    }
}

pub fn format_optional_string(value: &Option<String>) -> (r: String)
    ensures
        r@ == text_or_unknown(option_model(*value)),
{
    match value {
        Some(text) => text.clone(),
        None => "unknown".to_owned(),
    }
}

pub fn format_optional_range(value: Option<NumericRange>) -> (r: String)
    ensures
        r@ == range_or_unknown(value),
{
    match value {
        Some(range) => join3(dec_i64(range.min).as_str(), "..", dec_i64(range.max).as_str()),
        None => "unknown".to_owned(),
    }
}

// ---------------------------------------------------------------- lists

/// The names of commands, with commas between them.
pub open spec fn command_list(commands: Seq<CgiCommand>) -> Seq<char>
    decreases commands.len(),
{
    if commands.len() == 0 {
        Seq::empty()
    } else if commands.len() == 1 {
        command_name(commands[0])
    } else {
        command_list(commands.drop_last()) + ","@ + command_name(commands.last())
    }
}

pub fn format_commands(commands: &Vec<CgiCommand>) -> (r: String)
    ensures
        r@ == command_list(commands@),
{
    let mut text = String::new();
    let mut i: usize = 0;
    proof {
        assert(commands@.take(0) =~= Seq::<CgiCommand>::empty());
        assert(text@ =~= Seq::<char>::empty());
    }
    while i < commands.len()
        invariant
            i <= commands.len(),
            text@ == command_list(commands@.take(i as int)),
        decreases commands.len() - i,
    {
        proof {
            assert(commands@.take(i + 1).drop_last() =~= commands@.take(i as int));
        }
        text = if i == 0 {
            commands[i].as_str().to_owned()
        } else {
            join3(text.as_str(), ",", commands[i].as_str())
        };
        i = i + 1;
    }
    proof {
        assert(commands@.take(commands.len() as int) =~= commands@);
    }
    text
}

/// Numbers, with commas between them.
pub open spec fn number_list(numbers: Seq<u8>) -> Seq<char>
    decreases numbers.len(),
{
    if numbers.len() == 0 {
        Seq::empty()
    } else if numbers.len() == 1 {
        dec(numbers[0] as nat)
    } else {
        number_list(numbers.drop_last()) + ","@ + dec(numbers.last() as nat)
    }
}

fn format_numbers(numbers: &Vec<u8>) -> (r: String)
    ensures
        r@ == number_list(numbers@),
{
    let mut text = String::new();
    let mut i: usize = 0;
    proof {
        assert(numbers@.take(0) =~= Seq::<u8>::empty());
        assert(text@ =~= Seq::<char>::empty());
    }
    while i < numbers.len()
        invariant
            i <= numbers.len(),
            text@ == number_list(numbers@.take(i as int)),
        decreases numbers.len() - i,
    {
        proof {
            assert(numbers@.take(i + 1).drop_last() =~= numbers@.take(i as int));
        }
        let item = dec_u64(numbers[i] as u64);
        text = if i == 0 {
            item
        } else {
            join3(text.as_str(), ",", item.as_str())
        };
        i = i + 1;
    }
    proof {
        assert(numbers@.take(numbers.len() as int) =~= numbers@);
    }
    text
}

/// A stored position: its number, and its name where it has one.
pub open spec fn preset_text(preset: (u8, Option<Seq<char>>)) -> Seq<char> {
    match preset.1 {
        Some(name) => dec(preset.0 as nat) + ":"@ + name,
        None => dec(preset.0 as nat),
    }
}

/// Stored positions, with commas between them.
pub open spec fn preset_list(presets: Seq<(u8, Option<Seq<char>>)>) -> Seq<char>
    decreases presets.len(),
{
    if presets.len() == 0 {
        Seq::empty()
    } else if presets.len() == 1 {
        preset_text(presets[0])
    } else {
        preset_list(presets.drop_last()) + ","@ + preset_text(presets.last())
    }
}

fn format_presets(list: &PresetList) -> (r: String)
    ensures
        r@ == preset_list(list@),
{
    let mut text = String::new();
    let mut i: usize = 0;
    proof {
        assert(list@.take(0) =~= Seq::<(u8, Option<Seq<char>>)>::empty());
        assert(text@ =~= Seq::<char>::empty());
    }
    while i < list.presets.len()
        invariant
            i <= list.presets.len(),
            list.presets.len() == list@.len(),
            text@ == preset_list(list@.take(i as int)),
        decreases list.presets.len() - i,
    {
        let preset = &list.presets[i];
        proof {
            assert(list@.take(i + 1).drop_last() =~= list@.take(i as int));
            assert(list@[i as int] == preset_model(*preset));
        }
        let number = dec_u64(preset.id.value() as u64);
        let item = match &preset.name {
            Some(name) => join3(number.as_str(), ":", name.as_str()),
            None => number,
        };
        text = if i == 0 {
            item
        } else {
            join3(text.as_str(), ",", item.as_str())
        };
        i = i + 1;
    }
    proof {
        assert(list@.take(list@.len() as int) =~= list@);
    }
    text
}

// ---------------------------------------------------------------- what is printed

pub open spec fn status_text(status: StatusModel) -> Seq<char> {
    "channel="@ + dec(status.channel as nat) + "; pan="@ + int_or_unknown(status.pan_position)
        + "; tilt="@ + int_or_unknown(status.tilt_position) + "; zoom="@ + int_or_unknown(
        status.zoom_position,
    ) + "; focus="@ + int_or_unknown(status.focus_position) + "; pan_range="@ + range_or_unknown(
        status.pan_range,
    ) + "; tilt_range="@ + range_or_unknown(status.tilt_range) + "; zoom_range="@
        + range_or_unknown(status.zoom_range) + "; focus_range="@ + range_or_unknown(
        status.focus_range,
    ) + "; preset_range="@ + range_or_unknown(status.preset_range) + "; enabled_presets=["@
        + number_list(status.enabled_presets) + "]; calibration_state="@ + int_or_unknown(
        status.calibration_state,
    ) + "; calibrated="@ + flag_or_unknown(calibrated_state(status))
}

pub fn format_status(status: &PtzStatus) -> (r: String)
    ensures
        r@ == status_text(status@),
{
    let t = join3("channel=", dec_u64(status.channel as u64).as_str(), "; pan=");
    let t = join3(t.as_str(), format_optional_i64(status.pan_position).as_str(), "; tilt=");
    let t = join3(t.as_str(), format_optional_i64(status.tilt_position).as_str(), "; zoom=");
    let t = join3(t.as_str(), format_optional_i64(status.zoom_position).as_str(), "; focus=");
    let t = join3(t.as_str(), format_optional_i64(status.focus_position).as_str(), "; pan_range=");
    let t = join3(t.as_str(), format_optional_range(status.pan_range).as_str(), "; tilt_range=");
    let t = join3(t.as_str(), format_optional_range(status.tilt_range).as_str(), "; zoom_range=");
    let t = join3(t.as_str(), format_optional_range(status.zoom_range).as_str(), "; focus_range=");
    let t = join3(
        t.as_str(),
        format_optional_range(status.focus_range).as_str(),
        "; preset_range=",
    );
    let t = join3(
        t.as_str(),
        format_optional_range(status.preset_range).as_str(),
        "; enabled_presets=[",
    );
    let t = join3(
        t.as_str(),
        format_numbers(&status.enabled_presets).as_str(),
        "]; calibration_state=",
    );
    let t = join3(
        t.as_str(),
        format_optional_i64(status.calibration_state).as_str(),
        "; calibrated=",
    );
    join2(t.as_str(), format_optional_bool(status.calibrated()))
}

pub open spec fn net_port_text(settings: NetPortSettings) -> Seq<char> {
    "http_enable="@ + flag_or_unknown(settings.http_enable) + "; http_port="@ + port_or_unknown(
        settings.http_port,
    ) + "; https_enable="@ + flag_or_unknown(settings.https_enable) + "; https_port="@
        + port_or_unknown(settings.https_port) + "; media_port="@ + port_or_unknown(
        settings.media_port,
    ) + "; onvif_enable="@ + flag_or_unknown(settings.onvif_enable) + "; onvif_port="@
        + port_or_unknown(settings.onvif_port) + "; rtsp_enable="@ + flag_or_unknown(
        settings.rtsp_enable,
    ) + "; rtsp_port="@ + port_or_unknown(settings.rtsp_port) + "; rtmp_enable="@
        + flag_or_unknown(settings.rtmp_enable) + "; rtmp_port="@ + port_or_unknown(
        settings.rtmp_port,
    )
}

pub fn format_net_port(settings: &NetPortSettings) -> (r: String)
    ensures
        r@ == net_port_text(*settings),
{
    let t = join3("http_enable=", format_optional_bool(settings.http_enable), "; http_port=");
    let t = join3(t.as_str(), format_optional_u16(settings.http_port).as_str(), "; https_enable=");
    let t = join3(t.as_str(), format_optional_bool(settings.https_enable), "; https_port=");
    let t = join3(t.as_str(), format_optional_u16(settings.https_port).as_str(), "; media_port=");
    let t = join3(t.as_str(), format_optional_u16(settings.media_port).as_str(), "; onvif_enable=");
    let t = join3(t.as_str(), format_optional_bool(settings.onvif_enable), "; onvif_port=");
    let t = join3(t.as_str(), format_optional_u16(settings.onvif_port).as_str(), "; rtsp_enable=");
    let t = join3(t.as_str(), format_optional_bool(settings.rtsp_enable), "; rtsp_port=");
    let t = join3(t.as_str(), format_optional_u16(settings.rtsp_port).as_str(), "; rtmp_enable=");
    let t = join3(t.as_str(), format_optional_bool(settings.rtmp_enable), "; rtmp_port=");
    join2(t.as_str(), format_optional_u16(settings.rtmp_port).as_str())
}

pub open spec fn calibration_text(channel: u8, result: CalibrationModel) -> Seq<char> {
    "channel="@ + dec(channel as nat) + "; operation=calibrate_auto; camera_key="@
        + result.camera_key + "; calibration_path="@ + result.calibration_path
        + "; reused_existing="@ + flag_text(result.reused_existing) + "; calibrated="@
        + flag_or_unknown(result.calibrated_state) + "; model="@ + result.calibration.model + "; firmware="@
        + result.calibration.firmware + "; samples="@ + dec(result.report.samples as nat)
        + "; pan_error_p95_count="@ + dec_int(result.report.pan_error_p95_count as int)
        + "; tilt_error_p95_count="@ + dec_int(result.report.tilt_error_p95_count as int) + "; notes="@
        + result.report.notes
}

pub fn format_calibration(channel: u8, result: &PtzCalibrationReport) -> (r: String)
    ensures
        r@ == calibration_text(channel, result@),
{
    let t = join3(
        "channel=",
        dec_u64(channel as u64).as_str(),
        "; operation=calibrate_auto; camera_key=",
    );
    let t = join3(t.as_str(), result.camera_key.as_str(), "; calibration_path=");
    let t = join3(t.as_str(), result.calibration_path.as_str(), "; reused_existing=");
    let t = join3(t.as_str(), format_flag(result.reused_existing), "; calibrated=");
    let t = join3(t.as_str(), format_optional_bool(result.calibrated_state), "; model=");
    let t = join3(t.as_str(), result.calibration.model.as_str(), "; firmware=");
    let t = join3(t.as_str(), result.calibration.firmware.as_str(), "; samples=");
    let t = join3(
        t.as_str(),
        dec_u64(result.report.samples as u64).as_str(),
        "; pan_error_p95_count=",
    );
    let t = join3(
        t.as_str(),
        dec_i64(result.report.pan_error_p95_count).as_str(),
        "; tilt_error_p95_count=",
    );
    let t = join3(t.as_str(), dec_i64(result.report.tilt_error_p95_count).as_str(), "; notes=");
    join2(t.as_str(), result.report.notes.as_str())
}

pub open spec fn move_status_text(status: Option<OnvifMoveStatus>) -> Seq<char> {
    match status {
        Some(OnvifMoveStatus::Idle) => "idle"@,
        Some(OnvifMoveStatus::Moving) => "moving"@,
        _ => "unknown"@,
    }
}

fn format_move_status(status: Option<OnvifMoveStatus>) -> (r: &'static str)
    ensures
        r@ == move_status_text(status),
{
    match status {
        Some(OnvifMoveStatus::Idle) => "idle",
        Some(OnvifMoveStatus::Moving) => "moving",
        _ => "unknown",
    }
}

pub open spec fn onvif_status_text(channel: u8, status: Option<StatusFieldsModel>) -> Seq<char> {
    match status {
        None => "channel="@ + dec(channel as nat) + "; operation=onvif_status; status=unavailable"@,
        Some(known) => "channel="@ + dec(channel as nat) + "; operation=onvif_status; pan="@
            + text_or_unknown(known.pan) + "; tilt="@ + text_or_unknown(known.tilt) + "; zoom="@
            + text_or_unknown(known.zoom) + "; pan_tilt_move_status="@ + move_status_text(
            known.pan_tilt_move_status,
        ) + "; zoom_move_status="@ + move_status_text(known.zoom_move_status) + "; utc_time="@
            + text_or_unknown(known.utc_time),
    }
}

fn format_onvif_status(channel: u8, status: &Option<OnvifStatusFields>) -> (r: String)
    ensures
        r@ == onvif_status_text(channel, option_model(*status)),
{
    let channel_text = dec_u64(channel as u64);
    match status {
        None => join3(
            "channel=",
            channel_text.as_str(),
            "; operation=onvif_status; status=unavailable",
        ),
        Some(known) => {
            let t = join3("channel=", channel_text.as_str(), "; operation=onvif_status; pan=");
            let t = join3(t.as_str(), format_optional_string(&known.pan).as_str(), "; tilt=");
            let t = join3(t.as_str(), format_optional_string(&known.tilt).as_str(), "; zoom=");
            let t = join3(
                t.as_str(),
                format_optional_string(&known.zoom).as_str(),
                "; pan_tilt_move_status=",
            );
            let t = join3(
                t.as_str(),
                format_move_status(known.pan_tilt_move_status),
                "; zoom_move_status=",
            );
            let t = join3(t.as_str(), format_move_status(known.zoom_move_status), "; utc_time=");
            join2(t.as_str(), format_optional_string(&known.utc_time).as_str())
        },
    }
}

pub open spec fn onvif_options_text(channel: u8, options: Option<OptionsModel>) -> Seq<char> {
    match options {
        None => "channel="@ + dec(channel as nat)
            + "; operation=onvif_options; options=unavailable"@,
        Some(known) => "channel="@ + dec(channel as nat)
            + "; operation=onvif_options; supports_continuous_pan_tilt_velocity="@ + flag_text(
            known.supports_continuous_pan_tilt_velocity,
        ) + "; supports_relative_pan_tilt_translation="@ + flag_text(
            known.supports_relative_pan_tilt_translation,
        ) + "; supports_relative_pan_tilt_speed="@ + flag_text(
            known.supports_relative_pan_tilt_speed,
        ) + "; has_timeout_range="@ + flag_text(known.has_timeout_range) + "; timeout_min="@
            + text_or_unknown(known.timeout_min) + "; timeout_max="@ + text_or_unknown(
            known.timeout_max,
        ),
    }
}

fn format_onvif_options(channel: u8, options: &Option<OnvifPtzConfigurationOptions>) -> (r: String)
    ensures
        r@ == onvif_options_text(channel, option_model(*options)),
{
    let channel_text = dec_u64(channel as u64);
    match options {
        None => join3(
            "channel=",
            channel_text.as_str(),
            "; operation=onvif_options; options=unavailable",
        ),
        Some(known) => {
            let t = join3(
                "channel=",
                channel_text.as_str(),
                "; operation=onvif_options; supports_continuous_pan_tilt_velocity=",
            );
            let t = join3(
                t.as_str(),
                format_flag(known.supports_continuous_pan_tilt_velocity),
                "; supports_relative_pan_tilt_translation=",
            );
            let t = join3(
                t.as_str(),
                format_flag(known.supports_relative_pan_tilt_translation),
                "; supports_relative_pan_tilt_speed=",
            );
            let t = join3(
                t.as_str(),
                format_flag(known.supports_relative_pan_tilt_speed),
                "; has_timeout_range=",
            );
            let t = join3(t.as_str(), format_flag(known.has_timeout_range), "; timeout_min=");
            let t = join3(
                t.as_str(),
                format_optional_string(&known.timeout_min).as_str(),
                "; timeout_max=",
            );
            join2(t.as_str(), format_optional_string(&known.timeout_max).as_str())
        },
    }
}

/// The duration of a movement, or `none`.
pub open spec fn duration_or_none(duration_ms: Option<u64>) -> Seq<char> {
    match duration_ms {
        Some(ms) => dec(ms as nat),
        None => "none"@,
    }
}

pub open spec fn port_or_none(port: Option<u16>) -> Seq<char> {
    match port {
        Some(n) => dec(n as nat),
        None => "none"@,
    }
}

/// What is printed for the report of an operation.
pub open spec fn printed(command: CliModel, report: ReportModel) -> Seq<char> {
    match (command, report) {
        (CliModel::GetUserAuth { .. }, ReportModel::Token(token)) => "token="@ + token,
        (CliModel::GetAbility { .. }, ReportModel::Ability(ability)) => "user="@
            + ability.user_name + "; supported=["@ + command_list(ability.supported_commands)
            + "]"@,
        (CliModel::GetDevInfo, ReportModel::Device(info)) => "model="@ + info.model
            + "; firmware="@ + info.firmware + "; serial="@ + info.serial_number,
        (CliModel::GetChannelStatus { .. }, ReportModel::Channel(status)) => "channel="@ + dec(
            status.channel as nat,
        ) + "; online="@ + flag_text(status.online),
        (CliModel::GetPtzStatus { .. }, ReportModel::Status(status)) => status_text(status),
        (CliModel::GetTime, ReportModel::Time(time)) => "time="@ + time,
        (CliModel::SetTime { .. }, ReportModel::Time(time)) => "time="@ + time,
        (CliModel::GetNetPort, ReportModel::NetPort(settings)) => net_port_text(settings),
        (
            CliModel::SetOnvif { enabled, onvif_port },
            ReportModel::NetPort(settings),
        ) => "requested_enabled="@ + flag_text(enabled) + "; requested_port="@ + port_or_none(
            onvif_port,
        ) + "; "@ + net_port_text(settings),
        (CliModel::Snap { .. }, ReportModel::Snapshot(snapshot)) => "channel="@ + dec(
            snapshot.channel as nat,
        ) + "; image_path="@ + snapshot.image_path + "; bytes_written="@ + dec(
            snapshot.bytes_written as nat,
        ),
        (
            CliModel::PtzMove { channel, direction, speed, duration_ms },
            ReportModel::Moved,
        ) => "channel="@ + dec(channel as nat) + "; operation=move; direction="@ + direction_op(
            direction,
        ) + "; speed="@ + dec(speed as nat) + "; duration_ms="@ + duration_or_none(duration_ms),
        (CliModel::PtzStop { channel }, ReportModel::Moved) => "channel="@ + dec(channel as nat)
            + "; operation=stop"@,
        (CliModel::PtzPresetList { channel }, ReportModel::Presets(presets)) => "channel="@ + dec(
            channel as nat,
        ) + "; presets=["@ + preset_list(presets) + "]"@,
        (CliModel::PtzPresetGoto { channel, preset_id }, ReportModel::Moved) => "channel="@ + dec(
            channel as nat,
        ) + "; operation=preset_goto; preset_id="@ + dec(preset_id as nat),
        (CliModel::PtzCalibrateAuto { channel }, ReportModel::Calibration(result)) =>
            calibration_text(channel, result),
        (
            CliModel::PtzSetAbsolute { channel, tol_count, timeout_ms, .. },
            ReportModel::Position(pose),
        ) => "channel="@ + dec(channel as nat) + "; operation=set_absolute; pan_count="@ + dec_int(
            pose.pan_count as int,
        ) + "; tilt_count="@ + dec_int(pose.tilt_count as int) + "; tol_count="@ + dec_int(
            tol_count as int,
        ) + "; timeout_ms="@ + dec(timeout_ms as nat),
        (CliModel::PtzGetAbsolute { channel }, ReportModel::Position(pose)) => "channel="@ + dec(
            channel as nat,
        ) + "; operation=get_absolute; pan_count="@ + dec_int(pose.pan_count as int)
            + "; tilt_count="@ + dec_int(pose.tilt_count as int),
        (CliModel::PtzOnvifStatus { channel }, ReportModel::OnvifStatus(status)) =>
            onvif_status_text(channel, status),
        (CliModel::PtzOnvifOptions { channel }, ReportModel::OnvifOptions(options)) =>
            onvif_options_text(channel, options),
        (
            CliModel::PtzOnvifRelativeMove { channel, pan_delta_count, tilt_delta_count },
            ReportModel::RelativeMove(applied),
        ) => "channel="@ + dec(channel as nat)
            + "; operation=onvif_relative_move; pan_delta_count="@ + dec_int(
            pan_delta_count as int,
        ) + "; tilt_delta_count="@ + dec_int(tilt_delta_count as int) + "; applied="@ + flag_text(
            applied,
        ),
        (CliModel::Preflight { .. }, ReportModel::Preflight(report)) => "model="@
            + report.device_info.model + "; supported_commands="@ + dec(
            report.supported_commands.len(),
        ),
        _ => Seq::empty(),
    }
}

/// What is printed for the report of an operation. There is nothing for a report of another
/// operation.
pub fn print_report(command: &CliCommand, report: &Report) -> (r: Option<String>)
    ensures
        option_model(r) == if fits(command@, report@) {
            Some(printed(command@, report@))
        } else {
            None
        },
{
    match (command, report) {
        (CliCommand::GetUserAuth { .. }, Report::Token(token)) => Some(
            join2("token=", token.as_str()),
        ),
        (CliCommand::GetAbility { .. }, Report::Ability(ability)) => {
            let t = join3("user=", ability.user_name.as_str(), "; supported=[");
            Some(
                join3(t.as_str(), format_commands(&ability.supported_commands).as_str(), "]"),
            )
        },
        (CliCommand::GetDevInfo, Report::Device(info)) => {
            let t = join3("model=", info.model.as_str(), "; firmware=");
            let t = join3(t.as_str(), info.firmware.as_str(), "; serial=");
            Some(join2(t.as_str(), info.serial_number.as_str()))
        },
        (CliCommand::GetChannelStatus { .. }, Report::Channel(status)) => {
            let t = join3("channel=", dec_u64(status.channel as u64).as_str(), "; online=");
            Some(join2(t.as_str(), format_flag(status.online)))
        },
        (CliCommand::GetPtzStatus { .. }, Report::Status(status)) => Some(format_status(status)),
        (CliCommand::GetTime, Report::Time(time)) => Some(join2("time=", time.iso8601.as_str())),
        (CliCommand::SetTime { .. }, Report::Time(time)) => Some(
            join2("time=", time.iso8601.as_str()),
        ),
        (CliCommand::GetNetPort, Report::NetPort(settings)) => Some(format_net_port(settings)),
        (CliCommand::SetOnvif { enabled, onvif_port }, Report::NetPort(settings)) => {
            let port = match onvif_port {
                Some(n) => dec_u64(*n as u64),
                None => "none".to_owned(),
            };
            let t = join3("requested_enabled=", format_flag(*enabled), "; requested_port=");
            let t = join3(t.as_str(), port.as_str(), "; ");
            Some(join2(t.as_str(), format_net_port(settings).as_str()))
        },
        (CliCommand::Snap { .. }, Report::Snapshot(snapshot)) => {
            let t = join3("channel=", dec_u64(snapshot.channel as u64).as_str(), "; image_path=");
            let t = join3(t.as_str(), snapshot.image_path.as_str(), "; bytes_written=");
            Some(join2(t.as_str(), dec_u64(snapshot.bytes_written as u64).as_str()))
        },
        (CliCommand::PtzMove { channel, direction, speed, duration_ms }, Report::Moved) => {
            let duration = match duration_ms {
                Some(ms) => dec_u64(*ms),
                None => "none".to_owned(),
            };
            let t = join3(
                "channel=",
                dec_u64(*channel as u64).as_str(),
                "; operation=move; direction=",
            );
            let t = join3(t.as_str(), direction.as_op(), "; speed=");
            let t = join3(t.as_str(), dec_u64(*speed as u64).as_str(), "; duration_ms=");
            Some(join2(t.as_str(), duration.as_str()))
        },
        (CliCommand::PtzStop { channel }, Report::Moved) => Some(
            join3("channel=", dec_u64(*channel as u64).as_str(), "; operation=stop"),
        ),
        (CliCommand::PtzPresetList { channel }, Report::Presets(presets)) => {
            let t = join3("channel=", dec_u64(*channel as u64).as_str(), "; presets=[");
            Some(join3(t.as_str(), format_presets(presets).as_str(), "]"))
        },
        (CliCommand::PtzPresetGoto { channel, preset_id }, Report::Moved) => {
            let t = join3(
                "channel=",
                dec_u64(*channel as u64).as_str(),
                "; operation=preset_goto; preset_id=",
            );
            Some(join2(t.as_str(), dec_u64(*preset_id as u64).as_str()))
        },
        (CliCommand::PtzCalibrateAuto { channel }, Report::Calibration(result)) => Some(
            format_calibration(*channel, result),
        ),
        (
            CliCommand::PtzSetAbsolute { channel, tol_count, timeout_ms, .. },
            Report::Position(pose),
        ) => {
            let t = join3(
                "channel=",
                dec_u64(*channel as u64).as_str(),
                "; operation=set_absolute; pan_count=",
            );
            let t = join3(t.as_str(), dec_i64(pose.pan_count).as_str(), "; tilt_count=");
            let t = join3(t.as_str(), dec_i64(pose.tilt_count).as_str(), "; tol_count=");
            let t = join3(t.as_str(), dec_i64(*tol_count).as_str(), "; timeout_ms=");
            Some(join2(t.as_str(), dec_u64(*timeout_ms).as_str()))
        },
        (CliCommand::PtzGetAbsolute { channel }, Report::Position(pose)) => {
            let t = join3(
                "channel=",
                dec_u64(*channel as u64).as_str(),
                "; operation=get_absolute; pan_count=",
            );
            let t = join3(t.as_str(), dec_i64(pose.pan_count).as_str(), "; tilt_count=");
            Some(join2(t.as_str(), dec_i64(pose.tilt_count).as_str()))
        },
        (CliCommand::PtzOnvifStatus { channel }, Report::OnvifStatus(status)) => Some(
            format_onvif_status(*channel, status),
        ),
        (CliCommand::PtzOnvifOptions { channel }, Report::OnvifOptions(options)) => Some(
            format_onvif_options(*channel, options),
        ),
        (
            CliCommand::PtzOnvifRelativeMove { channel, pan_delta_count, tilt_delta_count },
            Report::RelativeMove(applied),
        ) => {
            let t = join3(
                "channel=",
                dec_u64(*channel as u64).as_str(),
                "; operation=onvif_relative_move; pan_delta_count=",
            );
            let t = join3(t.as_str(), dec_i64(*pan_delta_count).as_str(), "; tilt_delta_count=");
            let t = join3(t.as_str(), dec_i64(*tilt_delta_count).as_str(), "; applied=");
            Some(join2(t.as_str(), format_flag(*applied)))
        },
        (CliCommand::Preflight { .. }, Report::Preflight(report)) => {
            let t = join3("model=", report.device_info.model.as_str(), "; supported_commands=");
            Some(join2(t.as_str(), dec_u64(report.supported_commands.len() as u64).as_str()))
        },
        _ => None,
    }
}

// ---------------------------------------------------------------- running

/// The command of the camera that an operation needs and that is looked for among the
/// abilities of the user first.
pub open spec fn needed_command(command: CliModel) -> Option<CgiCommand> {
    match command {
        CliModel::GetDevInfo => Some(CgiCommand::GetDevInfo),
        CliModel::GetChannelStatus { .. } => Some(CgiCommand::GetChannelStatus),
        CliModel::GetTime => Some(CgiCommand::GetTime),
        CliModel::SetTime { .. } => Some(CgiCommand::SetTime),
        CliModel::Snap { .. } => Some(CgiCommand::Snap),
        CliModel::PtzMove { .. } => Some(CgiCommand::PtzCtrl),
        CliModel::PtzStop { .. } => Some(CgiCommand::PtzCtrl),
        CliModel::PtzPresetList { .. } => Some(CgiCommand::GetPtzPreset),
        CliModel::PtzPresetGoto { .. } => Some(CgiCommand::PtzCtrl),
        CliModel::PtzCalibrateAuto { .. } => Some(CgiCommand::PtzCtrl),
        CliModel::PtzSetAbsolute { .. } => Some(CgiCommand::PtzCtrl),
        _ => None,
    }
}

pub fn needed_command_of(command: &CliCommand) -> (r: Option<CgiCommand>)
    ensures
        r == needed_command(command@),
{
    match command {
        CliCommand::GetDevInfo => Some(CgiCommand::GetDevInfo),
        CliCommand::GetChannelStatus { .. } => Some(CgiCommand::GetChannelStatus),
        CliCommand::GetTime => Some(CgiCommand::GetTime),
        CliCommand::SetTime { .. } => Some(CgiCommand::SetTime),
        CliCommand::Snap { .. } => Some(CgiCommand::Snap),
        CliCommand::PtzMove { .. } => Some(CgiCommand::PtzCtrl),
        CliCommand::PtzStop { .. } => Some(CgiCommand::PtzCtrl),
        CliCommand::PtzPresetList { .. } => Some(CgiCommand::GetPtzPreset),
        CliCommand::PtzPresetGoto { .. } => Some(CgiCommand::PtzCtrl),
        CliCommand::PtzCalibrateAuto { .. } => Some(CgiCommand::PtzCtrl),
        CliCommand::PtzSetAbsolute { .. } => Some(CgiCommand::PtzCtrl),
        _ => None,
    }
}

/// What the program does for a command.
pub open spec fn command_step(
    command: CliModel,
    user_name: Seq<char>,
    ability: Option<Result<AbilityModel, ErrorModel>>,
    outcome: Option<Result<ReportModel, ErrorModel>>,
) -> ProgramModel {
    match support_of(needed_command(command), ability) {
        SupportModel::Unknown => ProgramModel::CheckAbility { user_name },
        SupportModel::Refused(error) => ProgramModel::Done(Err(error)),
        SupportModel::Supported => match outcome {
            None => ProgramModel::Perform(command),
            Some(Err(error)) => ProgramModel::Done(Err(error)),
            Some(Ok(report)) => if fits(command, report) {
                ProgramModel::Done(Ok(printed(command, report)))
            } else {
                ProgramModel::Perform(command)
            },
        },
    }
}

/// What the program does for its arguments: they are read, the abilities of the user are
/// looked at where the operation needs a command of the camera, the operation is carried
/// out, and its report is printed. A report of another operation does not count.
pub open spec fn run_step(
    args: Seq<Seq<char>>,
    user_name: Seq<char>,
    ability: Option<Result<AbilityModel, ErrorModel>>,
    outcome: Option<Result<ReportModel, ErrorModel>>,
) -> ProgramModel {
    match cli_meaning(args) {
        Err(error) => ProgramModel::Done(Err(error)),
        Ok(command) => if command is Help {
            ProgramModel::Done(Ok(help_of(usage())))
        } else {
            command_step(command, user_name, ability, outcome)
        },
    }
}

/// What the program does for its arguments, given what was found out so far: the abilities
/// of the user, and what the operation came to.
pub fn run(
    args: &[String],
    user_name: &str,
    ability: Option<&AppResult<Ability>>,
    outcome: Option<&AppResult<Report>>,
) -> (r: ProgramStep)
    ensures
        r@ == run_step(
            arg_models(args@),
            user_name@,
            optional_ability(ability),
            optional_report(outcome),
        ),
{
    let command = match parse_args(args) {
        Ok(command) => command,
        Err(error) => {
            return ProgramStep::Done(Err(error));
        },
    };
    if let CliCommand::Help = command {
        return ProgramStep::Done(Ok(help_text()));
    }
    match ensure_command_supported(needed_command_of(&command), ability) {
        Support::Unknown => ProgramStep::CheckAbility { user_name: user_name.to_owned() },
        Support::Refused(error) => ProgramStep::Done(Err(error)),
        Support::Supported => match outcome {
            None => ProgramStep::Perform(command),
            Some(Err(error)) => ProgramStep::Done(Err(error.duplicate())),
            Some(Ok(report)) => match print_report(&command, report) {
                Some(text) => ProgramStep::Done(Ok(text)),
                None => ProgramStep::Perform(command),
            },
        },
    }
}

// ---------------------------------------------------------------- laws

/// An operation that needs a command of the camera is carried out only where the abilities
/// of the user hold that command. A camera that does not have it is left alone.
pub proof fn law_unsupported_commands_are_refused(
    args: Seq<Seq<char>>,
    user_name: Seq<char>,
    ability: Option<Result<AbilityModel, ErrorModel>>,
    outcome: Option<Result<ReportModel, ErrorModel>>,
)
    ensures
        run_step(args, user_name, ability, outcome) matches ProgramModel::Perform(command) ==> (
        needed_command(command) matches Some(needed) ==> (ability matches Some(Ok(known))
            && known.supported_commands.contains(needed))),
{
}

/// Moving the camera in any way, and taking a snapshot, needs a command of the camera.
pub proof fn law_movements_are_checked(command: CliModel)
    requires
        command is PtzMove || command is PtzStop || command is PtzPresetGoto
            || command is PtzCalibrateAuto || command is PtzSetAbsolute || command is Snap,
    ensures
        needed_command(command) == Some(
            if command is Snap {
                CgiCommand::Snap
            } else {
                CgiCommand::PtzCtrl
            },
        ),
{
}

/// Arguments that are refused are refused before anything is asked of the camera.
pub proof fn law_arguments_come_first(
    args: Seq<Seq<char>>,
    user_name: Seq<char>,
    ability: Option<Result<AbilityModel, ErrorModel>>,
    outcome: Option<Result<ReportModel, ErrorModel>>,
)
    requires
        cli_meaning(args) is Err,
    ensures
        run_step(args, user_name, ability, outcome) == ProgramModel::Done(
            Err(cli_meaning(args)->Err_0),
        ),
{
}

/// The program ends: once the abilities are known and the operation has come to a report of
/// its own, or to an error, there is something to print or an error.
pub proof fn law_program_ends(
    args: Seq<Seq<char>>,
    user_name: Seq<char>,
    ability: Result<AbilityModel, ErrorModel>,
    outcome: Result<ReportModel, ErrorModel>,
)
    requires
        cli_meaning(args) matches Ok(command) ==> (outcome matches Ok(report) ==> fits(
            command,
            report,
        )),
    ensures
        run_step(args, user_name, Some(ability), Some(outcome)) is Done,
{
}

} // verus!
