//! What an operation comes to, and whether the camera lets it be carried out.
use crate::command::{command_name, CgiCommand};
use crate::error::{error_model, result_model, AppError, AppResult, ErrorKind, ErrorModel};
use crate::interfaces::cli_args::{CliCommand, CliModel};
use crate::json::option_model;
use crate::model::{
    Ability, AbilityModel, ChannelStatus, DeviceInfo, DeviceModel,
    NetPortSettings, PtzStatus, Snapshot, SnapshotModel, StatusModel, SystemTime,
};
use crate::reolink::onvif::{
    OnvifPtzConfigurationOptions, OnvifStatusFields, OptionsModel, StatusFieldsModel,
};
use crate::reolink::ptz::PresetList;
use crate::text::join3;
use crate::usecases::preflight::{PreflightModel, PreflightReport};
use crate::usecases::ptz_calibration::{CalibrationModel, PtzCalibrationReport};
use crate::usecases::ptz_get_absolute_raw::PtzRawPosition;
use vstd::prelude::*;

verus! {

/// What an operation comes to.
pub enum Report {
    Token(String),
    Ability(Ability),
    Device(DeviceInfo),
    Channel(ChannelStatus),
    Status(PtzStatus),
    Time(SystemTime),
    NetPort(NetPortSettings),
    Snapshot(Snapshot),
    /// A movement, a stop, or a movement to a stored position.
    Moved,
    Presets(PresetList),
    Calibration(PtzCalibrationReport),
    Position(PtzRawPosition),
    Preflight(PreflightReport),
    /// There is none where the ONVIF interface is not chosen.
    OnvifStatus(Option<OnvifStatusFields>),
    OnvifOptions(Option<OnvifPtzConfigurationOptions>),
    /// Whether the camera can be moved by a distance.
    RelativeMove(bool),
}

pub ghost enum ReportModel {
    Token(Seq<char>),
    Ability(AbilityModel),
    Device(DeviceModel),
    Channel(ChannelStatus),
    Status(StatusModel),
    Time(Seq<char>),
    NetPort(NetPortSettings),
    Snapshot(SnapshotModel),
    Moved,
    Presets(Seq<(u8, Option<Seq<char>>)>),
    Calibration(CalibrationModel),
    Position(PtzRawPosition),
    Preflight(PreflightModel),
    OnvifStatus(Option<StatusFieldsModel>),
    OnvifOptions(Option<OptionsModel>),
    RelativeMove(bool),
}

impl View for Report {
    type V = ReportModel;

    open spec fn view(&self) -> ReportModel {
        match self {
            Report::Token(token) => ReportModel::Token(token@),
            Report::Ability(ability) => ReportModel::Ability(ability@),
            Report::Device(device) => ReportModel::Device(device@),
            Report::Channel(status) => ReportModel::Channel(*status),
            Report::Status(status) => ReportModel::Status(status@),
            Report::Time(time) => ReportModel::Time(time@),
            Report::NetPort(settings) => ReportModel::NetPort(*settings),
            Report::Snapshot(snapshot) => ReportModel::Snapshot(snapshot@),
            Report::Moved => ReportModel::Moved,
            Report::Presets(presets) => ReportModel::Presets(presets@),
            Report::Calibration(summary) => ReportModel::Calibration(summary@),
            Report::Position(position) => ReportModel::Position(*position),
            Report::Preflight(report) => ReportModel::Preflight(report@),
            Report::OnvifStatus(status) => ReportModel::OnvifStatus(option_model(*status)),
            Report::OnvifOptions(options) => ReportModel::OnvifOptions(option_model(*options)),
            Report::RelativeMove(supported) => ReportModel::RelativeMove(*supported),
        }
    }
}

/// A report is one of the operation that was asked for.
pub open spec fn fits(command: CliModel, report: ReportModel) -> bool {
    match command {
        CliModel::Help => false,
        CliModel::GetAbility { .. } => report is Ability,
        CliModel::GetDevInfo => report is Device,
        CliModel::GetUserAuth { .. } => report is Token,
        CliModel::GetChannelStatus { .. } => report is Channel,
        CliModel::GetPtzStatus { .. } => report is Status,
        CliModel::GetTime => report is Time,
        CliModel::GetNetPort => report is NetPort,
        CliModel::SetTime { .. } => report is Time,
        CliModel::SetOnvif { .. } => report is NetPort,
        CliModel::Snap { .. } => report is Snapshot,
        CliModel::PtzMove { .. } => report is Moved,
        CliModel::PtzStop { .. } => report is Moved,
        CliModel::PtzPresetList { .. } => report is Presets,
        CliModel::PtzPresetGoto { .. } => report is Moved,
        CliModel::PtzCalibrateAuto { .. } => report is Calibration,
        CliModel::PtzSetAbsolute { .. } => report is Position,
        CliModel::PtzGetAbsolute { .. } => report is Position,
        CliModel::PtzOnvifStatus { .. } => report is OnvifStatus,
        CliModel::PtzOnvifOptions { .. } => report is OnvifOptions,
        CliModel::PtzOnvifRelativeMove { .. } => report is RelativeMove,
        CliModel::Preflight { .. } => report is Preflight,
    }
}

// ---------------------------------------------------------------- support

/// The error where the camera does not let a command be run.
pub open spec fn unsupported(command: CgiCommand, user_name: Seq<char>) -> ErrorModel {
    error_model(
        ErrorKind::UnsupportedCommand,
        "command "@ + command_name(command) + " is not supported by this camera (user="@ + user_name
            + ")"@,
    )
}

/// What asking for the abilities of a user comes to for a command: nothing yet, an error,
/// or that it may be run.
pub ghost enum SupportModel {
    Unknown,
    Refused(ErrorModel),
    Supported,
}

pub open spec fn support_of(
    needed: Option<CgiCommand>,
    ability: Option<Result<AbilityModel, ErrorModel>>,
) -> SupportModel {
    match needed {
        None => SupportModel::Supported,
        Some(command) => match ability {
            None => SupportModel::Unknown,
            Some(Err(error)) => SupportModel::Refused(error),
            Some(Ok(known)) => if known.supported_commands.contains(command) {
                SupportModel::Supported
            } else {
                SupportModel::Refused(unsupported(command, known.user_name))
            },
        },
    }
}

pub enum Support {
    Unknown,
    Refused(AppError),
    Supported,
}

impl View for Support {
    type V = SupportModel;

    open spec fn view(&self) -> SupportModel {
        match self {
            Support::Unknown => SupportModel::Unknown,
            Support::Refused(error) => SupportModel::Refused(error@),
            Support::Supported => SupportModel::Supported,
        }
    }
}

pub open spec fn optional_ability(ability: Option<&AppResult<Ability>>) -> Option<
    Result<AbilityModel, ErrorModel>,
> {
    match ability {
        Some(result) => Some(result_model(*result)),
        None => None,
    }
}

pub open spec fn optional_report(outcome: Option<&AppResult<Report>>) -> Option<
    Result<ReportModel, ErrorModel>,
> {
    match outcome {
        Some(result) => Some(result_model(*result)),
        None => None,
    }
}

/// Whether a command may be run, given the abilities of the user, where they were asked
/// for.
pub fn ensure_command_supported(
    needed: Option<CgiCommand>,
    ability: Option<&AppResult<Ability>>,
) -> (r: Support)
    ensures
        r@ == support_of(needed, optional_ability(ability)),
{
    let command = match needed {
        Some(command) => command,
        None => {
            return Support::Supported;
        },
    };
    match ability {
        None => Support::Unknown,
        Some(Err(error)) => Support::Refused(error.duplicate()),
        Some(Ok(known)) => {
            if known.supports(command) {
                return Support::Supported;
            }
            let text = join3(
                "command ",
                command.as_str(),
                " is not supported by this camera (user=",
            );
            Support::Refused(
                AppError::with_message(
                    ErrorKind::UnsupportedCommand,
                    join3(text.as_str(), known.user_name.as_str(), ")"),
                ),
            )
        },
    }
}

/// The next step of a program: the abilities of a user are needed, an operation is to be
/// carried out, or what the program says.
pub enum ProgramStep {
    CheckAbility { user_name: String },
    Perform(CliCommand),
    Done(AppResult<String>),
}

pub ghost enum ProgramModel {
    CheckAbility { user_name: Seq<char> },
    Perform(CliModel),
    Done(Result<Seq<char>, ErrorModel>),
}

impl View for ProgramStep {
    type V = ProgramModel;

    open spec fn view(&self) -> ProgramModel {
        match self {
            ProgramStep::CheckAbility { user_name } => ProgramModel::CheckAbility {
                user_name: user_name@,
            },
            ProgramStep::Perform(command) => ProgramModel::Perform(command@),
            ProgramStep::Done(result) => ProgramModel::Done(result_model(*result)),
        }
    }
}

} // verus!
