//! Moving the camera over one of its two interfaces.
use crate::command::RequestModel;
use crate::command::{CommandRequest, ResponseModel};
use crate::error::{error_model, result_model, AppError, AppResult, ErrorKind, ErrorModel};
use crate::exchange::{reply_models, CgiReply};
use crate::interfaces::runtime::PtzBackend;
use crate::json::option_model;
use crate::model::PtzDirection;
use crate::reolink::onvif;
use crate::reolink::onvif::{
    move_soap_step, optional_services, options_soap_step, soap_reply_models, soap_step_model,
    status_soap_step, stop_soap_step, ConfigModel, OnvifConfig, OnvifMoveStatus,
    OnvifPtzConfigurationOptions, OnvifStatusFields, OptionsModel, ResolvedServices, ServicesModel,
    SoapCall, SoapModel, SoapStep, SoapStepModel, StatusFieldsModel,
};
use crate::reolink::ptz;
use crate::reolink::ptz::{move_step, stop_step, MoveModel, MoveStep};
use std::collections::HashMap;
use vstd::prelude::*;
use vstd::std_specs::hash::*;

verus! {

broadcast use group_hash_axioms;

/// How long a movement may take to end after its time.
pub const ONVIF_MOTION_SETTLE_MS: u64 = 180;

pub const FINE_RELATIVE_MIN_COUNT: i64 = 1;

pub const FINE_RELATIVE_MIN_DURATION_MS: u64 = 16;

pub const FINE_RELATIVE_MAX_DURATION_MS: u64 = 120;

/// What is known of a movement.
#[derive(Debug, Clone, Copy, PartialEq, Eq, Structural)]
pub struct TransportMotionHint {
    pub moving: Option<bool>,
    pub move_age_ms: Option<u64>,
}

// ---------------------------------------------------------------- steps

/// The next step of an operation on one of the interfaces.
pub enum TransportStep<T> {
    SendCgi { delay_ms: u64, request: CommandRequest },
    /// The services of the camera are needed.
    Resolve,
    SendSoap(SoapCall),
    Done(AppResult<T>),
}

pub ghost enum TransportModel<V> {
    SendCgi { delay_ms: u64, request: RequestModel },
    Resolve,
    SendSoap(SoapModel),
    Done(Result<V, ErrorModel>),
}

pub open spec fn transport_model<T: View>(step: TransportStep<T>) -> TransportModel<T::V> {
    match step {
        TransportStep::SendCgi { delay_ms, request } => TransportModel::SendCgi {
            delay_ms,
            request: request@,
        },
        TransportStep::Resolve => TransportModel::Resolve,
        TransportStep::SendSoap(call) => TransportModel::SendSoap(call@),
        TransportStep::Done(result) => TransportModel::Done(result_model(result)),
    }
}

/// A step over the CGI interface.
pub open spec fn over_cgi(step: MoveModel) -> TransportModel<()> {
    match step {
        MoveModel::Send { delay_ms, request } => TransportModel::SendCgi { delay_ms, request },
        MoveModel::Done(result) => TransportModel::Done(result),
    }
}

/// A step over the ONVIF interface.
pub open spec fn over_soap<V>(step: SoapStepModel<V>) -> TransportModel<V> {
    match step {
        SoapStepModel::Resolve => TransportModel::Resolve,
        SoapStepModel::Send(call) => TransportModel::SendSoap(call),
        SoapStepModel::Done(result) => TransportModel::Done(result),
    }
}

/// A step over the ONVIF interface, whose value is one that may be missing.
pub open spec fn over_soap_optional<V>(step: SoapStepModel<V>) -> TransportModel<Option<V>> {
    match step {
        SoapStepModel::Resolve => TransportModel::Resolve,
        SoapStepModel::Send(call) => TransportModel::SendSoap(call),
        SoapStepModel::Done(Ok(value)) => TransportModel::Done(Ok(Some(value))),
        SoapStepModel::Done(Err(error)) => TransportModel::Done(Err(error)),
    }
}

fn step_over_cgi(step: MoveStep) -> (r: TransportStep<()>)
    ensures
        transport_model(r) == over_cgi(step@),
{
    match step {
        MoveStep::Send { delay_ms, request } => TransportStep::SendCgi { delay_ms, request },
        MoveStep::Done(result) => TransportStep::Done(result),
    }
}

fn step_over_soap<T: View>(step: SoapStep<T>) -> (r: TransportStep<T>)
    ensures
        transport_model(r) == over_soap(soap_step_model(step)),
{
    match step {
        SoapStep::Resolve => TransportStep::Resolve,
        SoapStep::Send(call) => TransportStep::SendSoap(call),
        SoapStep::Done(result) => TransportStep::Done(result),
    }
}

/// The error where the ONVIF interface is wanted and cannot be reached.
pub open spec fn no_config_error() -> ErrorModel {
    error_model(
        ErrorKind::InvalidInput,
        "ONVIF backend requires REOCLI_PASSWORD and a valid ONVIF device service URL"@,
    )
}

fn missing_config() -> (r: AppError)
    ensures
        r@ == no_config_error(),
{
    AppError::new(
        ErrorKind::InvalidInput,
        "ONVIF backend requires REOCLI_PASSWORD and a valid ONVIF device service URL",
    )
}

pub open spec fn optional_config(config: Option<&OnvifConfig>) -> Option<ConfigModel> {
    match config {
        Some(inner) => Some(inner@),
        None => None,
    }
}

// ---------------------------------------------------------------- moving

/// Moving the camera over the interface that is chosen.
pub open spec fn move_transport_step(
    backend: PtzBackend,
    config: Option<ConfigModel>,
    channel: u8,
    direction: PtzDirection,
    speed: u8,
    duration_ms: Option<u64>,
    cgi: Seq<Result<ResponseModel, ErrorModel>>,
    services: Option<ServicesModel>,
    soap: Seq<Result<Seq<char>, ErrorModel>>,
) -> TransportModel<()> {
    match backend {
        PtzBackend::Cgi => over_cgi(move_step(channel, direction, speed, duration_ms, cgi)),
        PtzBackend::OnvifContinuous => match config {
            None => TransportModel::Done(Err(no_config_error())),
            Some(known) => over_soap(
                move_soap_step(known, channel, direction, speed, duration_ms, services, soap),
            ),
        },
    }
}

/// Moves the camera.
pub fn move_ptz(
    backend: PtzBackend,
    config: Option<&OnvifConfig>,
    channel: u8,
    direction: PtzDirection,
    speed: u8,
    duration_ms: Option<u64>,
    cgi: &[CgiReply],
    services: Option<&ResolvedServices>,
    soap: &[AppResult<String>],
) -> (r: TransportStep<()>)
    ensures
        transport_model(r) == move_transport_step(
            backend,
            optional_config(config),
            channel,
            direction,
            speed,
            duration_ms,
            reply_models(cgi@),
            optional_services(services),
            soap_reply_models(soap@),
        ),
{
    match backend {
        PtzBackend::Cgi => step_over_cgi(ptz::move_ptz(channel, direction, speed, duration_ms, cgi)),
        PtzBackend::OnvifContinuous => match config {
            None => TransportStep::Done(Err(missing_config())),
            Some(known) => step_over_soap(
                onvif::continuous_move(
                    known,
                    channel,
                    direction,
                    speed,
                    duration_ms,
                    services,
                    soap,
                ),
            ),
        },
    }
}

/// Stopping the camera over the interface that is chosen.
pub open spec fn stop_transport_step(
    backend: PtzBackend,
    config: Option<ConfigModel>,
    channel: u8,
    cgi: Seq<Result<ResponseModel, ErrorModel>>,
    services: Option<ServicesModel>,
    soap: Seq<Result<Seq<char>, ErrorModel>>,
) -> TransportModel<()> {
    match backend {
        PtzBackend::Cgi => over_cgi(stop_step(channel, cgi)),
        PtzBackend::OnvifContinuous => match config {
            None => TransportModel::Done(Err(no_config_error())),
            Some(known) => over_soap(stop_soap_step(known, channel, services, soap)),
        },
    }
}

/// Stops the camera.
pub fn stop_ptz(
    backend: PtzBackend,
    config: Option<&OnvifConfig>,
    channel: u8,
    cgi: &[CgiReply],
    services: Option<&ResolvedServices>,
    soap: &[AppResult<String>],
) -> (r: TransportStep<()>)
    ensures
        transport_model(r) == stop_transport_step(
            backend,
            optional_config(config),
            channel,
            reply_models(cgi@),
            optional_services(services),
            soap_reply_models(soap@),
        ),
{
    match backend {
        PtzBackend::Cgi => step_over_cgi(ptz::stop_ptz(channel, cgi)),
        PtzBackend::OnvifContinuous => match config {
            None => TransportStep::Done(Err(missing_config())),
            Some(known) => step_over_soap(onvif::stop(known, channel, services, soap)),
        },
    }
}

// ---------------------------------------------------------------- status and options

/// A value that may be missing, by its view.
pub open spec fn optional_status(r: AppResult<Option<OnvifStatusFields>>) -> Result<
    Option<StatusFieldsModel>,
    ErrorModel,
> {
    match r {
        Ok(value) => Ok(option_model(value)),
        Err(error) => Err(error@),
    }
}

pub open spec fn status_step_model(step: TransportStep<Option<OnvifStatusFields>>) -> TransportModel<
    Option<StatusFieldsModel>,
> {
    match step {
        TransportStep::SendCgi { delay_ms, request } => TransportModel::SendCgi {
            delay_ms,
            request: request@,
        },
        TransportStep::Resolve => TransportModel::Resolve,
        TransportStep::SendSoap(call) => TransportModel::SendSoap(call@),
        TransportStep::Done(result) => TransportModel::Done(optional_status(result)),
    }
}

/// The status of the ONVIF interface, where that interface is chosen.
pub open spec fn status_transport_step(
    backend: PtzBackend,
    config: Option<ConfigModel>,
    channel: u8,
    services: Option<ServicesModel>,
    soap: Seq<Result<Seq<char>, ErrorModel>>,
) -> TransportModel<Option<StatusFieldsModel>> {
    match backend {
        PtzBackend::Cgi => TransportModel::Done(Ok(None)),
        PtzBackend::OnvifContinuous => match config {
            None => TransportModel::Done(Err(no_config_error())),
            Some(known) => over_soap_optional(status_soap_step(known, channel, services, soap)),
        },
    }
}

/// The status of the ONVIF interface, where that interface is chosen.
pub fn get_onvif_status(
    backend: PtzBackend,
    config: Option<&OnvifConfig>,
    channel: u8,
    services: Option<&ResolvedServices>,
    soap: &[AppResult<String>],
) -> (r: TransportStep<Option<OnvifStatusFields>>)
    ensures
        status_step_model(r) == status_transport_step(
            backend,
            optional_config(config),
            channel,
            optional_services(services),
            soap_reply_models(soap@),
        ),
{
    match backend {
        PtzBackend::Cgi => TransportStep::Done(Ok(None)),
        PtzBackend::OnvifContinuous => match config {
            None => TransportStep::Done(Err(missing_config())),
            Some(known) => match onvif::get_status(known, channel, services, soap) {
                SoapStep::Resolve => TransportStep::Resolve,
                SoapStep::Send(call) => TransportStep::SendSoap(call),
                SoapStep::Done(Ok(status)) => TransportStep::Done(Ok(Some(status))),
                SoapStep::Done(Err(error)) => TransportStep::Done(Err(error)),
            },
        },
    }
}

pub open spec fn optional_options(r: AppResult<Option<OnvifPtzConfigurationOptions>>) -> Result<
    Option<OptionsModel>,
    ErrorModel,
> {
    match r {
        Ok(value) => Ok(option_model(value)),
        Err(error) => Err(error@),
    }
}

pub open spec fn options_step_model(
    step: TransportStep<Option<OnvifPtzConfigurationOptions>>,
) -> TransportModel<Option<OptionsModel>> {
    match step {
        TransportStep::SendCgi { delay_ms, request } => TransportModel::SendCgi {
            delay_ms,
            request: request@,
        },
        TransportStep::Resolve => TransportModel::Resolve,
        TransportStep::SendSoap(call) => TransportModel::SendSoap(call@),
        TransportStep::Done(result) => TransportModel::Done(optional_options(result)),
    }
}

/// The options of the ONVIF interface, where that interface is chosen.
pub open spec fn options_transport_step(
    backend: PtzBackend,
    config: Option<ConfigModel>,
    channel: u8,
    services: Option<ServicesModel>,
    soap: Seq<Result<Seq<char>, ErrorModel>>,
) -> TransportModel<Option<OptionsModel>> {
    match backend {
        PtzBackend::Cgi => TransportModel::Done(Ok(None)),
        PtzBackend::OnvifContinuous => match config {
            None => TransportModel::Done(Err(no_config_error())),
            Some(known) => over_soap_optional(options_soap_step(known, channel, services, soap)),
        },
    }
}

/// The options of the ONVIF interface, where that interface is chosen.
pub fn get_onvif_configuration_options(
    backend: PtzBackend,
    config: Option<&OnvifConfig>,
    channel: u8,
    services: Option<&ResolvedServices>,
    soap: &[AppResult<String>],
) -> (r: TransportStep<Option<OnvifPtzConfigurationOptions>>)
    ensures
        options_step_model(r) == options_transport_step(
            backend,
            optional_config(config),
            channel,
            optional_services(services),
            soap_reply_models(soap@),
        ),
{
    match backend {
        PtzBackend::Cgi => TransportStep::Done(Ok(None)),
        PtzBackend::OnvifContinuous => match config {
            None => TransportStep::Done(Err(missing_config())),
            Some(known) => match onvif::get_configuration_options(known, channel, services, soap) {
                SoapStep::Resolve => TransportStep::Resolve,
                SoapStep::Send(call) => TransportStep::SendSoap(call),
                SoapStep::Done(Ok(options)) => TransportStep::Done(Ok(Some(options))),
                SoapStep::Done(Err(error)) => TransportStep::Done(Err(error)),
            },
        },
    }
}

// ---------------------------------------------------------------- moving by a distance

/// Only the ONVIF interface moves the camera by a distance.
pub fn supports_relative_move(backend: PtzBackend) -> (r: bool)
    ensures
        r == (backend == PtzBackend::OnvifContinuous),
{
    match backend {
        PtzBackend::Cgi => false,
        PtzBackend::OnvifContinuous => true,
    }
}

/// Whether a channel can be moved by a distance, as its options say.
pub open spec fn relative_support_step(
    backend: PtzBackend,
    config: Option<ConfigModel>,
    channel: u8,
    services: Option<ServicesModel>,
    soap: Seq<Result<Seq<char>, ErrorModel>>,
) -> TransportModel<bool> {
    match options_transport_step(backend, config, channel, services, soap) {
        TransportModel::SendCgi { delay_ms, request } => TransportModel::SendCgi {
            delay_ms,
            request,
        },
        TransportModel::Resolve => TransportModel::Resolve,
        TransportModel::SendSoap(call) => TransportModel::SendSoap(call),
        TransportModel::Done(Err(error)) => TransportModel::Done(Err(error)),
        TransportModel::Done(Ok(None)) => TransportModel::Done(Ok(false)),
        TransportModel::Done(Ok(Some(options))) => TransportModel::Done(
            Ok(options.supports_relative_pan_tilt_translation),
        ),
    }
}

/// Whether a channel can be moved by a distance.
pub fn supports_relative_move_for_channel(
    backend: PtzBackend,
    config: Option<&OnvifConfig>,
    channel: u8,
    services: Option<&ResolvedServices>,
    soap: &[AppResult<String>],
) -> (r: TransportStep<bool>)
    ensures
        transport_model(r) == relative_support_step(
            backend,
            optional_config(config),
            channel,
            optional_services(services),
            soap_reply_models(soap@),
        ),
{
    match get_onvif_configuration_options(backend, config, channel, services, soap) {
        TransportStep::SendCgi { delay_ms, request } => TransportStep::SendCgi {
            delay_ms,
            request,
        },
        TransportStep::Resolve => TransportStep::Resolve,
        TransportStep::SendSoap(call) => TransportStep::SendSoap(call),
        TransportStep::Done(Err(error)) => TransportStep::Done(Err(error)),
        TransportStep::Done(Ok(None)) => TransportStep::Done(Ok(false)),
        TransportStep::Done(Ok(Some(options))) => TransportStep::Done(
            Ok(options.supports_relative_pan_tilt_translation),
        ),
    }
}

/// The speed for a distance.
pub open spec fn relative_speed(error_count: int) -> u8 {
    if error_count <= 20 {
        1
    } else if error_count <= 45 {
        2
    } else if error_count <= 80 {
        3
    } else {
        4
    }
}

pub fn relative_speed_for_count(error_count: i64) -> (r: u8)
    ensures
        r == relative_speed(error_count as int),
{
    if error_count <= 20 {
        1
    } else if error_count <= 45 {
        2
    } else if error_count <= 80 {
        3
    } else {
        4
    }
}

/// The time for a distance: eleven tenths of a millisecond for each count, rounded, and
/// kept between the shortest and the longest time.
pub open spec fn relative_duration(error_count: int) -> u64 {
    let dominant = if error_count < FINE_RELATIVE_MIN_COUNT {
        FINE_RELATIVE_MIN_COUNT as int
    } else {
        error_count
    };
    let rounded = (11 * dominant + 5) / 10;
    if rounded < FINE_RELATIVE_MIN_DURATION_MS {
        FINE_RELATIVE_MIN_DURATION_MS
    } else if rounded > FINE_RELATIVE_MAX_DURATION_MS {
        FINE_RELATIVE_MAX_DURATION_MS
    } else {
        rounded as u64
    }
}

pub fn relative_duration_for_count(error_count: i64) -> (r: u64)
    ensures
        r == relative_duration(error_count as int),
{
    if error_count < 10 {
        return FINE_RELATIVE_MIN_DURATION_MS;
    }
    if error_count > 200 {
        return FINE_RELATIVE_MAX_DURATION_MS;
    }
    let rounded: u64 = (11 * (error_count as u64) + 5) / 10;
    if rounded < FINE_RELATIVE_MIN_DURATION_MS {
        FINE_RELATIVE_MIN_DURATION_MS
    } else if rounded > FINE_RELATIVE_MAX_DURATION_MS {
        FINE_RELATIVE_MAX_DURATION_MS
    } else {
        rounded
    }
}

pub open spec fn magnitude(n: int) -> int {
    if n >= 0 {
        n
    } else if -n > i64::MAX {
        i64::MAX as int
    } else {
        -n
    }
}

/// The longer of two distances.
pub open spec fn dominant_count(pan_delta_count: int, tilt_delta_count: int) -> int {
    if magnitude(pan_delta_count) >= magnitude(tilt_delta_count) {
        magnitude(pan_delta_count)
    } else {
        magnitude(tilt_delta_count)
    }
}

fn magnitude_of(n: i64) -> (r: i64)
    ensures
        r == magnitude(n as int),
{
    if n >= 0 {
        n
    } else if n == i64::MIN {
        i64::MAX
    } else {
        -n
    }
}

/// The longer of two distances.
pub fn dominant_error_count(pan_delta_count: i64, tilt_delta_count: i64) -> (r: i64)
    ensures
        r == dominant_count(pan_delta_count as int, tilt_delta_count as int),
{
    let pan: i64 = magnitude_of(pan_delta_count);
    let tilt: i64 = magnitude_of(tilt_delta_count);
    if pan >= tilt {
        pan
    } else {
        tilt
    }
}

/// A movement by a distance, with the speed that goes with the distance.
#[derive(Debug, Clone, Copy, PartialEq, Eq, Structural)]
pub struct RelativeMove {
    pub pan_delta_count: i64,
    pub tilt_delta_count: i64,
    pub speed: u8,
}

/// The movement for a distance. For no distance there is none.
pub open spec fn relative_move_by(pan_delta_count: i64, tilt_delta_count: i64) -> Option<
    RelativeMove,
> {
    let dominant = dominant_count(pan_delta_count as int, tilt_delta_count as int);
    if dominant == 0 {
        None
    } else {
        Some(
            RelativeMove { pan_delta_count, tilt_delta_count, speed: relative_speed(dominant) },
        )
    }
}

/// The movement for a distance: the two parts of it and a speed from 1 to 4.
pub fn relative_move_for(pan_delta_count: i64, tilt_delta_count: i64) -> (r: Option<RelativeMove>)
    ensures
        r == relative_move_by(pan_delta_count, tilt_delta_count),
        r matches Some(movement) ==> 1 <= movement.speed <= 4,
{
    let dominant: i64 = dominant_error_count(pan_delta_count, tilt_delta_count);
    if dominant == 0 {
        None
    } else {
        Some(
            RelativeMove {
                pan_delta_count,
                tilt_delta_count,
                speed: relative_speed_for_count(dominant),
            },
        )
    }
}

/// The next step of moving the camera by a distance.
pub enum RelativeStep {
    /// A step of finding out whether the channel can be moved so.
    Ask(TransportStep<bool>),
    /// The movement to send.
    Move(RelativeMove),
    Done(AppResult<bool>),
}

pub ghost enum RelativeStepModel {
    Ask(TransportModel<bool>),
    Move(RelativeMove),
    Done(Result<bool, ErrorModel>),
}

impl View for RelativeStep {
    type V = RelativeStepModel;

    open spec fn view(&self) -> RelativeStepModel {
        match *self {
            RelativeStep::Ask(step) => RelativeStepModel::Ask(transport_model(step)),
            RelativeStep::Move(movement) => RelativeStepModel::Move(movement),
            RelativeStep::Done(result) => RelativeStepModel::Done(result_model(result)),
        }
    }
}

/// What came of sending a movement.
pub open spec fn sent_model(sent: Option<&AppResult<()>>) -> Option<Result<(), ErrorModel>> {
    match sent {
        Some(Ok(_)) => Some(Ok(())),
        Some(Err(error)) => Some(Err(error@)),
        None => None,
    }
}

/// A movement by a distance: a channel that cannot be moved so is left alone, and so is one
/// that is where it should be. Else one movement is sent, and what comes of it decides.
pub open spec fn relative_transport_step(
    backend: PtzBackend,
    config: Option<ConfigModel>,
    channel: u8,
    pan_delta_count: i64,
    tilt_delta_count: i64,
    services: Option<ServicesModel>,
    option_replies: Seq<Result<Seq<char>, ErrorModel>>,
    sent: Option<Result<(), ErrorModel>>,
) -> RelativeStepModel {
    match relative_support_step(backend, config, channel, services, option_replies) {
        TransportModel::Done(Err(error)) => RelativeStepModel::Done(Err(error)),
        TransportModel::Done(Ok(supported)) => if !supported {
            RelativeStepModel::Done(Ok(false))
        } else {
            match relative_move_by(pan_delta_count, tilt_delta_count) {
                None => RelativeStepModel::Done(Ok(true)),
                Some(movement) => match sent {
                    None => RelativeStepModel::Move(movement),
                    Some(Ok(_)) => RelativeStepModel::Done(Ok(true)),
                    Some(Err(error)) => RelativeStepModel::Done(Err(error)),
                },
            }
        },
        other => RelativeStepModel::Ask(other),
    }
}

/// Moves the camera by a distance, where it can be, given what came of the movement that was
/// sent. How its numbers are written is left to the one who sends it.
pub fn move_relative_ptz(
    backend: PtzBackend,
    config: Option<&OnvifConfig>,
    channel: u8,
    pan_delta_count: i64,
    tilt_delta_count: i64,
    services: Option<&ResolvedServices>,
    option_replies: &[AppResult<String>],
    sent: Option<&AppResult<()>>,
) -> (r: RelativeStep)
    ensures
        r@ == relative_transport_step(
            backend,
            optional_config(config),
            channel,
            pan_delta_count,
            tilt_delta_count,
            optional_services(services),
            soap_reply_models(option_replies@),
            sent_model(sent),
        ),
{
    match supports_relative_move_for_channel(backend, config, channel, services, option_replies) {
        TransportStep::Done(Err(error)) => RelativeStep::Done(Err(error)),
        TransportStep::Done(Ok(supported)) => {
            if !supported {
                return RelativeStep::Done(Ok(false));
            }
            match relative_move_for(pan_delta_count, tilt_delta_count) {
                None => RelativeStep::Done(Ok(true)),
                Some(movement) => match sent {
                    None => RelativeStep::Move(movement),
                    Some(Ok(_)) => RelativeStep::Done(Ok(true)),
                    Some(Err(error)) => RelativeStep::Done(Err(error.duplicate())),
                },
            }
        },
        other => RelativeStep::Ask(other),
    }
}

// ---------------------------------------------------------------- hints

/// What a camera that reports its two kinds of movement says: it moves where one of them
/// moves, and it stands still where one of them stands still.
pub open spec fn reported_motion(
    pan_tilt: Option<OnvifMoveStatus>,
    zoom: Option<OnvifMoveStatus>,
) -> Option<bool> {
    if pan_tilt == Some(OnvifMoveStatus::Moving) || zoom == Some(OnvifMoveStatus::Moving) {
        Some(true)
    } else if pan_tilt == Some(OnvifMoveStatus::Idle) || zoom == Some(OnvifMoveStatus::Idle) {
        Some(false)
    } else {
        None
    }
}

pub fn map_onvif_move_status(
    pan_tilt: Option<OnvifMoveStatus>,
    zoom: Option<OnvifMoveStatus>,
) -> (r: Option<bool>)
    ensures
        r == reported_motion(pan_tilt, zoom),
{
    if matches!(pan_tilt, Some(OnvifMoveStatus::Moving)) || matches!(
        zoom,
        Some(OnvifMoveStatus::Moving)
    ) {
        return Some(true);
    }
    if matches!(pan_tilt, Some(OnvifMoveStatus::Idle)) || matches!(
        zoom,
        Some(OnvifMoveStatus::Idle)
    ) {
        return Some(false);
    }
    None
}

/// Either of two sources may say that the camera moves; where one says that it stands still,
/// it does unless the other contradicts.
pub open spec fn combined_motion(primary: Option<bool>, secondary: Option<bool>) -> Option<bool> {
    if primary == Some(true) || secondary == Some(true) {
        Some(true)
    } else if primary == Some(false) || secondary == Some(false) {
        Some(false)
    } else {
        None
    }
}

pub fn combine_moving_hint(primary: Option<bool>, secondary: Option<bool>) -> (r: Option<bool>)
    ensures
        r == combined_motion(primary, secondary),
{
    match (primary, secondary) {
        (Some(true), _) | (_, Some(true)) => Some(true),
        (Some(false), _) | (_, Some(false)) => Some(false),
        (None, None) => None,
    }
}

/// When a channel was last moved over the ONVIF interface, in milliseconds of a clock that
/// does not go back.
#[derive(Debug, Clone, Copy, PartialEq, Eq, Structural)]
pub struct MotionTelemetry {
    pub last_move_started_ms: u64,
    pub expected_motion_until_ms: Option<u64>,
}

/// What a movement leaves behind: when it started, and until when it may go on, where that
/// is known.
pub open spec fn telemetry_of(started_at_ms: u64, duration_ms: Option<u64>) -> MotionTelemetry {
    MotionTelemetry {
        last_move_started_ms: started_at_ms,
        expected_motion_until_ms: match duration_ms {
            Some(duration) => {
                let bounded = if duration + ONVIF_MOTION_SETTLE_MS > u64::MAX {
                    u64::MAX as int
                } else {
                    duration + ONVIF_MOTION_SETTLE_MS
                };
                if started_at_ms + bounded > u64::MAX {
                    None
                } else {
                    Some((started_at_ms + bounded) as u64)
                }
            },
            None => None,
        },
    }
}

/// What is known of a movement at a later time.
pub open spec fn hint_at(entry: MotionTelemetry, now_ms: u64) -> TransportMotionHint {
    TransportMotionHint {
        moving: match entry.expected_motion_until_ms {
            Some(until) => Some(now_ms < until),
            None => None,
        },
        move_age_ms: Some(
            if now_ms >= entry.last_move_started_ms {
                (now_ms - entry.last_move_started_ms) as u64
            } else {
                0
            },
        ),
    }
}

/// The last movement of each channel.
pub struct MotionLog {
    entries: HashMap<u8, MotionTelemetry>,
}

impl View for MotionLog {
    type V = Map<u8, MotionTelemetry>;

    closed spec fn view(&self) -> Map<u8, MotionTelemetry> {
        self.entries@
    }
}

/// What the log says of a channel.
pub open spec fn logged_hint(
    log: Map<u8, MotionTelemetry>,
    channel: u8,
    now_ms: u64,
) -> Option<TransportMotionHint> {
    if log.dom().contains(channel) {
        Some(hint_at(log[channel], now_ms))
    } else {
        None
    }
}

/// The log after a movement: one that was made over the ONVIF interface is noted for its
/// channel, and any other leaves the log as it is.
pub open spec fn log_after(
    log: Map<u8, MotionTelemetry>,
    backend: PtzBackend,
    made: bool,
    channel: u8,
    started_at_ms: u64,
    duration_ms: Option<u64>,
) -> Map<u8, MotionTelemetry> {
    if backend == PtzBackend::OnvifContinuous && made {
        log.insert(channel, telemetry_of(started_at_ms, duration_ms))
    } else {
        log
    }
}

impl MotionLog {
    pub fn new() -> (r: Self)
        ensures
            r@ == Map::<u8, MotionTelemetry>::empty(),
    {
        MotionLog { entries: HashMap::new() }
    }

    /// Notes a movement.
    pub fn remember_motion(&mut self, channel: u8, started_at_ms: u64, duration_ms: Option<u64>)
        ensures
            final(self)@ == old(self)@.insert(channel, telemetry_of(started_at_ms, duration_ms)),
    {
        let expected_motion_until_ms = match duration_ms {
            Some(duration) => {
                let bounded: u64 = duration.saturating_add(ONVIF_MOTION_SETTLE_MS);
                started_at_ms.checked_add(bounded)
            },
            None => None,
        };
        self.entries.insert(
            channel,
            MotionTelemetry { last_move_started_ms: started_at_ms, expected_motion_until_ms },
        );
    }

    /// Notes what came of a movement: only one that was made over the ONVIF interface leaves
    /// something behind.
    pub fn note_move(
        &mut self,
        backend: PtzBackend,
        channel: u8,
        started_at_ms: u64,
        duration_ms: Option<u64>,
        outcome: &AppResult<()>,
    )
        ensures
            final(self)@ == log_after(
                old(self)@,
                backend,
                outcome is Ok,
                channel,
                started_at_ms,
                duration_ms,
            ),
    {
        if backend == PtzBackend::OnvifContinuous && outcome.is_ok() {
            self.remember_motion(channel, started_at_ms, duration_ms);
        }
    }

    /// Notes what came of stopping the camera: a movement of no time.
    pub fn note_stop(
        &mut self,
        backend: PtzBackend,
        channel: u8,
        now_ms: u64,
        outcome: &AppResult<()>,
    )
        ensures
            final(self)@ == log_after(
                old(self)@,
                backend,
                outcome is Ok,
                channel,
                now_ms,
                Some(0),
            ),
    {
        self.note_move(backend, channel, now_ms, Some(0), outcome);
    }

    /// Notes what came of a movement by a distance: only one that was sent leaves something
    /// behind.
    pub fn note_relative_move(
        &mut self,
        backend: PtzBackend,
        channel: u8,
        started_at_ms: u64,
        pan_delta_count: i64,
        tilt_delta_count: i64,
        outcome: &AppResult<bool>,
    )
        ensures
            final(self)@ == ({
                let dominant = dominant_count(pan_delta_count as int, tilt_delta_count as int);
                log_after(
                    old(self)@,
                    backend,
                    (outcome matches Ok(moved) && *moved) && dominant != 0,
                    channel,
                    started_at_ms,
                    Some(relative_duration(dominant)),
                )
            }),
    {
        let dominant: i64 = dominant_error_count(pan_delta_count, tilt_delta_count);
        let moved = match outcome {
            Ok(moved) => *moved,
            Err(_) => false,
        };
        if backend == PtzBackend::OnvifContinuous && moved && dominant != 0 {
            let duration_ms: u64 = relative_duration_for_count(dominant);
            self.remember_motion(channel, started_at_ms, Some(duration_ms));
        }
    }

    /// What is known of the last movement of a channel.
    pub fn cached_motion_status_hint(&self, channel: u8, now_ms: u64) -> (r: Option<
        TransportMotionHint,
    >)
        ensures
            r == logged_hint(self@, channel, now_ms),
    {
        match self.entries.get(&channel) {
            Some(entry) => {
                let moving = match entry.expected_motion_until_ms {
                    Some(until) => Some(now_ms < until),
                    None => None,
                };
                let age: u64 = now_ms.saturating_sub(entry.last_move_started_ms);
                Some(TransportMotionHint { moving, move_age_ms: Some(age) })
            },
            None => None,
        }
    }
}

/// What is known of a movement, from what the camera reports and from the log.
pub open spec fn motion_hint(
    backend: PtzBackend,
    reported: Option<bool>,
    cached: Option<TransportMotionHint>,
) -> Option<TransportMotionHint> {
    match backend {
        PtzBackend::Cgi => None,
        PtzBackend::OnvifContinuous => Some(
            TransportMotionHint {
                moving: combined_motion(
                    reported,
                    match cached {
                        Some(hint) => hint.moving,
                        None => None,
                    },
                ),
                move_age_ms: match cached {
                    Some(hint) => hint.move_age_ms,
                    None => None,
                },
            },
        ),
    }
}

/// What the camera reports of its movement, where its status was read.
pub open spec fn status_motion(status: Option<OnvifStatusFields>) -> Option<bool> {
    match status {
        Some(fields) => reported_motion(fields.pan_tilt_move_status, fields.zoom_move_status),
        None => None,
    }
}

/// What is known of a movement, given the status, where it was read, and the log's hint.
pub fn motion_status_hint(
    backend: PtzBackend,
    status: Option<OnvifStatusFields>,
    cached: Option<TransportMotionHint>,
) -> (r: Option<TransportMotionHint>)
    ensures
        r == motion_hint(backend, status_motion(status), cached),
{
    match backend {
        PtzBackend::Cgi => None,
        PtzBackend::OnvifContinuous => {
            let reported = match &status {
                Some(fields) => map_onvif_move_status(
                    fields.pan_tilt_move_status,
                    fields.zoom_move_status,
                ),
                None => None,
            };
            match cached {
                Some(hint) => Some(
                    TransportMotionHint {
                        moving: combine_moving_hint(reported, hint.moving),
                        move_age_ms: hint.move_age_ms,
                    },
                ),
                None => Some(TransportMotionHint { moving: reported, move_age_ms: None }),
            }
        },
    }
}

// ---------------------------------------------------------------- laws

/// Without the ONVIF configuration, nothing is sent over the ONVIF interface: moving and
/// stopping are refused with the same error.
pub proof fn law_onvif_needs_its_configuration(
    channel: u8,
    direction: PtzDirection,
    speed: u8,
    duration_ms: Option<u64>,
    cgi: Seq<Result<ResponseModel, ErrorModel>>,
    services: Option<ServicesModel>,
    soap: Seq<Result<Seq<char>, ErrorModel>>,
)
    ensures
        move_transport_step(
            PtzBackend::OnvifContinuous,
            None,
            channel,
            direction,
            speed,
            duration_ms,
            cgi,
            services,
            soap,
        ) == TransportModel::<()>::Done(Err(no_config_error())),
        stop_transport_step(PtzBackend::OnvifContinuous, None, channel, cgi, services, soap)
            == TransportModel::<()>::Done(Err(no_config_error())),
{
}

/// A movement leaves what is known of the other channels as it is. One that failed, or that
/// was made over the CGI interface, leaves everything as it is.
pub proof fn law_other_channels_are_left_alone(
    log: Map<u8, MotionTelemetry>,
    backend: PtzBackend,
    made: bool,
    channel: u8,
    started_at_ms: u64,
    duration_ms: Option<u64>,
    other: u8,
    now_ms: u64,
)
    ensures
        other != channel || !made || backend == PtzBackend::Cgi ==> logged_hint(
            log_after(log, backend, made, channel, started_at_ms, duration_ms),
            other,
            now_ms,
        ) == logged_hint(log, other, now_ms),
{
}

/// A camera that was stopped over the ONVIF interface is expected to move for the time it
/// takes to settle, and then not.
pub proof fn law_a_stop_settles(
    log: Map<u8, MotionTelemetry>,
    channel: u8,
    stopped_at_ms: u64,
    now_ms: u64,
)
    requires
        stopped_at_ms + ONVIF_MOTION_SETTLE_MS <= u64::MAX,
    ensures
        logged_hint(
            log_after(
                log,
                PtzBackend::OnvifContinuous,
                true,
                channel,
                stopped_at_ms,
                Some(0),
            ),
            channel,
            now_ms,
        ) matches Some(hint) && hint.moving == Some(now_ms < stopped_at_ms + 180),
{
}

/// One movement at most is sent for a distance: the whole distance, at the speed that goes
/// with it. Once it was sent, the operation is over, and it succeeds where the movement did.
pub proof fn law_one_relative_move_is_sent(
    backend: PtzBackend,
    config: Option<ConfigModel>,
    channel: u8,
    pan_delta_count: i64,
    tilt_delta_count: i64,
    services: Option<ServicesModel>,
    option_replies: Seq<Result<Seq<char>, ErrorModel>>,
    sent: Result<(), ErrorModel>,
)
    ensures
        ({
            let support = relative_support_step(backend, config, channel, services, option_replies);
            let dominant = dominant_count(pan_delta_count as int, tilt_delta_count as int);
            let step = |known: Option<Result<(), ErrorModel>>|
                relative_transport_step(
                    backend,
                    config,
                    channel,
                    pan_delta_count,
                    tilt_delta_count,
                    services,
                    option_replies,
                    known,
                );
            &&& support == TransportModel::<bool>::Done(Ok(false)) ==> step(None)
                == RelativeStepModel::Done(Ok(false))
            &&& support == TransportModel::<bool>::Done(Ok(true)) && dominant == 0 ==> step(None)
                == RelativeStepModel::Done(Ok(true))
            &&& support == TransportModel::<bool>::Done(Ok(true)) && dominant != 0 ==> step(None)
                == RelativeStepModel::Move(
                RelativeMove {
                    pan_delta_count,
                    tilt_delta_count,
                    speed: relative_speed(dominant),
                },
            ) && step(Some(sent)) == RelativeStepModel::Done(
                match sent {
                    Ok(_) => Ok(true),
                    Err(error) => Err(error),
                },
            )
        }),
{
}

/// Two sources of a hint may be asked in either order, and one source twice says what it
/// says once.
pub proof fn law_hints_combine(a: Option<bool>, b: Option<bool>, c: Option<bool>)
    ensures
        combined_motion(a, b) == combined_motion(b, a),
        combined_motion(a, a) == a,
        combined_motion(combined_motion(a, b), c) == combined_motion(a, combined_motion(b, c)),
        combined_motion(a, None) == a,
{
    assert(a is None || a == Some(true) || a == Some(false));
}

/// A longer distance takes no less time and no less speed, and the time stays between the
/// shortest and the longest.
pub proof fn law_longer_distances_take_longer(shorter: int, longer: int)
    requires
        shorter <= longer,
    ensures
        relative_duration(shorter) <= relative_duration(longer),
        relative_speed(shorter) <= relative_speed(longer),
        FINE_RELATIVE_MIN_DURATION_MS <= relative_duration(shorter)
            <= FINE_RELATIVE_MAX_DURATION_MS,
{
}

/// A movement is expected to go on for its time and a little longer, and then not.
pub proof fn law_motion_is_expected_to_end(
    log: Map<u8, MotionTelemetry>,
    channel: u8,
    started_at_ms: u64,
    duration_ms: u64,
    now_ms: u64,
)
    requires
        started_at_ms + duration_ms + ONVIF_MOTION_SETTLE_MS <= u64::MAX,
    ensures
        logged_hint(
            log.insert(channel, telemetry_of(started_at_ms, Some(duration_ms))),
            channel,
            now_ms,
        ) matches Some(hint) && hint.moving == Some(
            now_ms < started_at_ms + duration_ms + ONVIF_MOTION_SETTLE_MS,
        ),
{
}

} // verus!
