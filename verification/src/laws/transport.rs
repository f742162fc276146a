//! Ways to the camera: which one a movement takes, and whether the camera is still moving.
use crate::command::ResponseModel;
use crate::error::ErrorModel;
use crate::interfaces::runtime::PtzBackend;
use crate::model::{PtzDirection, StatusModel};
use crate::reolink::onvif::{ConfigModel, OnvifMoveStatus, ServicesModel, SoapStepModel};
use crate::reolink::ptz::{move_step, stop_step, MoveModel};
use crate::usecases::ptz_get_absolute_raw::{raw_position_of, PtzRawPosition};
use crate::usecases::ptz_transport::{
    combined_motion, dominant_count, hint_at, log_after, logged_hint, motion_hint,
    move_transport_step, relative_duration, relative_move_by, reported_motion, stop_transport_step,
    telemetry_of, MotionTelemetry, TransportModel, TransportMotionHint,
};
use vstd::prelude::*;

verus! {

/// Over the camera's own interface, a movement is sent as that interface has it: the same
/// request, the same delay, the same outcome.
pub proof fn law_own_interface_is_used(
    config: Option<ConfigModel>,
    channel: u8,
    direction: PtzDirection,
    speed: u8,
    duration_ms: Option<u64>,
    cgi: Seq<Result<ResponseModel, ErrorModel>>,
    services: Option<ServicesModel>,
    soap: Seq<Result<Seq<char>, ErrorModel>>,
)
    ensures
        (move_step(channel, direction, speed, duration_ms, cgi) matches MoveModel::Send {
            delay_ms,
            request,
        } ==> move_transport_step(
            PtzBackend::Cgi,
            config,
            channel,
            direction,
            speed,
            duration_ms,
            cgi,
            services,
            soap,
        ) == (TransportModel::<()>::SendCgi { delay_ms, request })),
        (move_step(channel, direction, speed, duration_ms, cgi) matches MoveModel::Done(result)
            ==> move_transport_step(
            PtzBackend::Cgi,
            config,
            channel,
            direction,
            speed,
            duration_ms,
            cgi,
            services,
            soap,
        ) == TransportModel::<()>::Done(result)),
        (stop_step(channel, cgi) matches MoveModel::Send { delay_ms, request }
            ==> stop_transport_step(PtzBackend::Cgi, config, channel, cgi, services, soap) == (
        TransportModel::<()>::SendCgi { delay_ms, request })),
{
}

/// Over ONVIF, a movement is sent as ONVIF has it, and never over the camera's own interface.
pub proof fn law_onvif_is_used(
    config: ConfigModel,
    channel: u8,
    direction: PtzDirection,
    speed: u8,
    duration_ms: Option<u64>,
    cgi: Seq<Result<ResponseModel, ErrorModel>>,
    services: Option<ServicesModel>,
    soap: Seq<Result<Seq<char>, ErrorModel>>,
)
    ensures
        ({
            let step = move_transport_step(
                PtzBackend::OnvifContinuous,
                Some(config),
                channel,
                direction,
                speed,
                duration_ms,
                cgi,
                services,
                soap,
            );
            let own = crate::reolink::onvif::move_soap_step(
                config,
                channel,
                direction,
                speed,
                duration_ms,
                services,
                soap,
            );
            &&& own matches SoapStepModel::Send(call) ==> step == TransportModel::<()>::SendSoap(
                call,
            )
            &&& own is Resolve ==> step is Resolve
            &&& own matches SoapStepModel::Done(result) ==> step == TransportModel::<()>::Done(
                result,
            )
            &&& !(step is SendCgi)
        }),
{
}

// ---------------------------------------------------------------- distances

pub open spec fn reaches(n: i64, count: int) -> bool {
    n >= count || n <= -count
}

/// How fast the camera moves by a distance, by the larger of the two.
pub proof fn law_speed_by_distance(pan: i64, tilt: i64)
    ensures
        pan == 0 && tilt == 0 <==> relative_move_by(pan, tilt) is None,
        relative_move_by(pan, tilt) matches Some(movement) ==> {
            &&& movement.pan_delta_count == pan
            &&& movement.tilt_delta_count == tilt
            &&& movement.speed == 1 <==> !reaches(pan, 21) && !reaches(tilt, 21)
            &&& movement.speed == 2 <==> (reaches(pan, 21) || reaches(tilt, 21)) && !reaches(pan, 46)
                && !reaches(tilt, 46)
            &&& movement.speed == 3 <==> (reaches(pan, 46) || reaches(tilt, 46)) && !reaches(pan, 81)
                && !reaches(tilt, 81)
            &&& movement.speed == 4 <==> reaches(pan, 81) || reaches(tilt, 81)
        },
{
}

/// How long a movement by a distance lasts: a little over a millisecond a count, between
/// sixteen and a hundred and twenty milliseconds.
pub proof fn law_time_by_distance(error_count: int)
    ensures
        16 <= relative_duration(error_count) <= 120,
        15 <= error_count <= 109 ==> -5 <= 10 * relative_duration(error_count) - 11 * error_count
            <= 5,
        error_count <= 14 ==> relative_duration(error_count) == 16,
        error_count >= 109 ==> relative_duration(error_count) == 120,
{
}

/// The larger of two distances, by size.
pub proof fn law_larger_distance_counts(pan: int, tilt: int)
    requires
        -1000000 <= pan <= 1000000,
        -1000000 <= tilt <= 1000000,
    ensures
        dominant_count(pan, tilt) >= pan && dominant_count(pan, tilt) >= -pan,
        dominant_count(pan, tilt) >= tilt && dominant_count(pan, tilt) >= -tilt,
        dominant_count(pan, tilt) == pan || dominant_count(pan, tilt) == -pan || dominant_count(
            pan,
            tilt,
        ) == tilt || dominant_count(pan, tilt) == -tilt,
        dominant_count(pan, tilt) == dominant_count(tilt, pan),
{
}

// ---------------------------------------------------------------- motion

/// The camera moves where any part of it moves; it stands still where none moves and one is
/// known to be idle.
pub proof fn law_reported_motion(pan_tilt: Option<OnvifMoveStatus>, zoom: Option<OnvifMoveStatus>)
    ensures
        reported_motion(pan_tilt, zoom) == Some(true) <==> pan_tilt == Some(OnvifMoveStatus::Moving)
            || zoom == Some(OnvifMoveStatus::Moving),
        reported_motion(pan_tilt, zoom) == Some(false) <==> pan_tilt != Some(
            OnvifMoveStatus::Moving,
        ) && zoom != Some(OnvifMoveStatus::Moving) && (pan_tilt == Some(OnvifMoveStatus::Idle)
            || zoom == Some(OnvifMoveStatus::Idle)),
{
}

/// Of two words on the motion, one that it moves prevails, and else one that it does not.
pub proof fn law_motion_prevails(word: Option<bool>)
    ensures
        combined_motion(Some(true), word) == Some(true),
        combined_motion(word, Some(true)) == Some(true),
        combined_motion(Some(false), None) == Some(false),
        combined_motion(Some(false), Some(false)) == Some(false),
        combined_motion(None, None) is None,
{
}

/// What is noted of a movement: when it began, and when it is expected to end.
pub proof fn law_movements_are_noted(started_at_ms: u64, duration_ms: u64, now_ms: u64)
    requires
        started_at_ms + duration_ms + 180 <= u64::MAX,
        now_ms >= started_at_ms,
    ensures
        ({
            let hint = hint_at(telemetry_of(started_at_ms, Some(duration_ms)), now_ms);
            &&& hint.move_age_ms == Some((now_ms - started_at_ms) as u64)
            &&& hint.moving == Some(true) <==> now_ms - started_at_ms < duration_ms + 180
            &&& hint.moving == Some(false) <==> now_ms - started_at_ms >= duration_ms + 180
        }),
        hint_at(telemetry_of(started_at_ms, None), now_ms).moving is None,
        hint_at(telemetry_of(started_at_ms, None), now_ms).move_age_ms == Some(
            (now_ms - started_at_ms) as u64,
        ),
{
}

/// What is noted of a channel is found under that channel, for a movement over ONVIF that was
/// made, and under no other circumstances.
pub proof fn law_notes_are_found(
    log: Map<u8, MotionTelemetry>,
    channel: u8,
    started_at_ms: u64,
    duration_ms: Option<u64>,
    now_ms: u64,
)
    ensures
        logged_hint(
            log_after(
                log,
                PtzBackend::OnvifContinuous,
                true,
                channel,
                started_at_ms,
                duration_ms,
            ),
            channel,
            now_ms,
        ) == Some(hint_at(telemetry_of(started_at_ms, duration_ms), now_ms)),
        log_after(log, PtzBackend::Cgi, true, channel, started_at_ms, duration_ms) == log,
        log_after(log, PtzBackend::OnvifContinuous, false, channel, started_at_ms, duration_ms)
            == log,
        logged_hint(Map::empty(), channel, now_ms) is None,
{
}

/// What is told of the motion: over ONVIF what the camera reports together with what was
/// noted, and else nothing.
pub proof fn law_motion_is_told(reported: Option<bool>, known: TransportMotionHint)
    ensures
        motion_hint(PtzBackend::Cgi, reported, Some(known)) is None,
        motion_hint(PtzBackend::OnvifContinuous, reported, None) == Some(
            TransportMotionHint { moving: reported, move_age_ms: None },
        ),
        motion_hint(PtzBackend::OnvifContinuous, reported, Some(known)) matches Some(hint)
            && hint.move_age_ms == known.move_age_ms && (hint.moving == Some(true) <==> reported
            == Some(true) || known.moving == Some(true)) && (hint.moving is None <==> reported is None
            && known.moving is None),
{
    assert(reported is None || reported == Some(true) || reported == Some(false));
    assert(known.moving is None || known.moving == Some(true) || known.moving == Some(false));
}

// ---------------------------------------------------------------- positions

/// The position of a status has its counts in their own places.
pub proof fn law_position_of_a_status(status: StatusModel, pan: i64, tilt: i64)
    ensures
        status.pan_position == Some(pan) && status.tilt_position == Some(tilt) ==> raw_position_of(
            status,
        ) == Ok::<PtzRawPosition, ErrorModel>(
            PtzRawPosition {
                channel: status.channel,
                pan_count: pan,
                tilt_count: tilt,
                zoom_count: status.zoom_position,
                focus_count: status.focus_position,
            },
        ),
        status.pan_position is None || status.tilt_position is None ==> raw_position_of(
            status,
        ) is Err,
{
}

/// A movement that would end beyond the last moment there is has no expected end.
pub proof fn law_movements_without_an_end(started_at_ms: u64, duration_ms: u64)
    ensures
        started_at_ms + duration_ms + 180 > u64::MAX && duration_ms <= u64::MAX - 180
            ==> telemetry_of(started_at_ms, Some(duration_ms)).expected_motion_until_ms is None,
        telemetry_of(started_at_ms, Some(duration_ms)).last_move_started_ms == started_at_ms,
        telemetry_of(started_at_ms, None).last_move_started_ms == started_at_ms,
{
}

/// The age of a movement is never negative.
pub proof fn law_age_of_a_movement(entry: MotionTelemetry, now_ms: u64)
    ensures
        now_ms < entry.last_move_started_ms ==> hint_at(entry, now_ms).move_age_ms == Some(0u64),
        now_ms >= entry.last_move_started_ms ==> hint_at(entry, now_ms).move_age_ms == Some(
            (now_ms - entry.last_move_started_ms) as u64,
        ),
        (entry.expected_motion_until_ms matches Some(until) ==> hint_at(entry, now_ms).moving
            == Some(now_ms < until)),
{
}

} // verus!
