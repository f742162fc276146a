//! The operations themselves: what they return, in terms of what they are given.
use crate::command::{CgiCommand, CommandParams, CommandResponse, ResponseModel};
use crate::error::{result_model, AppError, AppResult, ErrorKind, ErrorModel};
use crate::exchange::{reply_models, step_model, CgiReply, Step, StepModel};
use crate::interfaces::runtime::{
    default_onvif_device_service_url, default_service_url_fits, host_of_url, url_with_host,
    url_with_path, url_with_port, PtzBackend,
};
use crate::json::{display_of_json, tree_get, JsonTree};
use crate::laws::answers::{is_answer, is_count, is_plain_value};
use crate::laws::calibration::{first_push, moved_enough, second_push};
use crate::laws::device::{is_of, is_of_another, law_online_is_what_the_entry_says, says_by};
use crate::laws::moving::{
    asks_for, carries, is_called, law_movement_goes_where_it_was_asked_to,
};
use crate::model::{ChannelStatus, PtzDirection, PtzStatus};
use crate::reolink::device::{about_channel, get_channel_status};
use crate::reolink::ptz::{move_ptz, position_step, MoveStep};
use crate::usecases::ptz_calibrate_auto::{
    calibration_pulse_ms, calibration_pulse_speed, detect_axis_motion, map_status_to_counts,
    AxisKind, CALIBRATION_DEADBAND_PRELOAD_MS, CALIBRATION_DEADBAND_PROBE_SPEED,
    CALIBRATION_RESTORE_PULSE_MS, CALIBRATION_SETTLE_MS, DetectStep, DirectionalDeadband,
};
use crate::usecases::ptz_control_limits::{tilt_edge_ahead, EdgePushContext};
use crate::usecases::ptz_get_absolute_raw::{
    map_status_to_raw_position, raw_position_step, PtzRawPosition,
};
use crate::usecases::ptz_loop_state::{strict_axis_focus_command, StrictTolerances};
use crate::usecases::ptz_set_absolute_raw::{
    accepts_stored_state, completion_min_age_ms, min_updates_for,
    remaining_control_step_sleep_duration, validate_inputs,
};
use crate::usecases::ptz_transport::{status_transport_step, supports_relative_move, TransportModel};
use crate::reolink::onvif::{ConfigModel, ServicesModel, StatusFieldsModel};
use crate::usecases::ptz_control_loop::DUAL_AXIS_CLOSE_NO_PROGRESS_TOGGLE_STEPS;
use vstd::prelude::*;

verus! {

// ---------------------------------------------------------------- pushes

/// A push that is asked for on one axis alone goes to the target: up or right where the
/// target lies above, down or left where it lies below, however far it is. There is none
/// where both axes are off, or neither.
pub proof fn law_focus_command_goes_to_the_target(
    pan_error: i128,
    tilt_error: i128,
    strict: StrictTolerances,
    push: Option<PtzDirection>,
)
    requires
        call_ensures(strict_axis_focus_command, (pan_error, tilt_error, strict), push),
        strict.pan_count >= 0,
        strict.tilt_count >= 0,
    ensures
        push is Some <==> (pan_error > strict.pan_count || -pan_error > strict.pan_count) != (
        tilt_error > strict.tilt_count || -tilt_error > strict.tilt_count),
        push == Some(PtzDirection::Up) ==> tilt_error > strict.tilt_count,
        push == Some(PtzDirection::Down) ==> -tilt_error > strict.tilt_count,
        push == Some(PtzDirection::Right) ==> pan_error > strict.pan_count,
        push == Some(PtzDirection::Left) ==> -pan_error > strict.pan_count,
        push matches Some(way) ==> way == PtzDirection::Up || way == PtzDirection::Down || way
            == PtzDirection::Right || way == PtzDirection::Left,
{
}

/// The direction that is found to increase an axis is the one whose push raised its count.
pub proof fn law_detected_motion_is_what_moved(
    axis: AxisKind,
    readings: &[i64],
    pulses: usize,
    step: DetectStep,
)
    requires
        call_ensures(detect_axis_motion, (axis, readings, pulses), step),
        2 <= readings@.len() <= pulses,
        moved_enough(axis, readings@[0], readings@[1]),
    ensures
        step matches DetectStep::Done(Ok(motion)) && {
            &&& motion.increase == first_push(axis) <==> readings@[1] > readings@[0]
            &&& motion.decrease == first_push(axis) <==> readings@[1] < readings@[0]
            &&& motion.increase == second_push(axis) <==> readings@[1] < readings@[0]
            &&& motion.decrease == second_push(axis) <==> readings@[1] > readings@[0]
        },
{
}

/// Where the first push did not move the axis, the second one tells.
pub proof fn law_detected_motion_is_what_moved_later(
    axis: AxisKind,
    readings: &[i64],
    pulses: usize,
    step: DetectStep,
)
    requires
        call_ensures(detect_axis_motion, (axis, readings, pulses), step),
        4 <= readings@.len() <= pulses,
        !moved_enough(axis, readings@[0], readings@[1]),
    ensures
        moved_enough(axis, readings@[2], readings@[3]) ==> (step matches DetectStep::Done(Ok(motion))
            && (motion.increase == second_push(axis) <==> readings@[3] > readings@[2])
            && (motion.decrease == second_push(axis) <==> readings@[3] < readings@[2])
            && (motion.increase == first_push(axis) <==> readings@[3] < readings@[2])
            && (motion.decrease == first_push(axis) <==> readings@[3] > readings@[2])),
        !moved_enough(axis, readings@[2], readings@[3]) ==> step matches DetectStep::Done(Err(_)),
{
}

/// What is sent first to move the camera is the text of an object that names the direction
/// that was asked for, the channel and the speed, and it is sent at once.
pub proof fn law_move_is_sent_as_asked(
    channel: u8,
    direction: PtzDirection,
    speed: u8,
    duration_ms: Option<u64>,
    replies: &[CgiReply],
    step: MoveStep,
)
    requires
        call_ensures(move_ptz, (channel, direction, speed, duration_ms, replies), step),
        replies@.len() == 0,
        1 <= speed <= 64,
    ensures
        step matches MoveStep::Send { delay_ms, request } && delay_ms == 0 && request.command
            == CgiCommand::PtzCtrl && request.action == 0 && request.params.payload is Some
            && exists|payload: JsonTree, op: Seq<char>|
            {
                &&& request.params.payload->0@ == #[trigger] display_of_json(payload)
                &&& #[trigger] asks_for(payload, channel, op)
                &&& is_called(direction, op)
                &&& tree_get(payload, "speed"@) matches Some(raw) && is_count(raw, speed as int)
            },
{
    law_movement_goes_where_it_was_asked_to(channel, direction, speed, duration_ms);
    assert(reply_models(replies@) =~= Seq::empty());
    let (payload, op) = choose|payload: JsonTree, op: Seq<char>|
        {
            &&& #[trigger] carries(step@, 0, payload)
            &&& #[trigger] asks_for(payload, channel, op)
            &&& crate::model::direction_named(op) == Some(direction)
            &&& is_called(direction, op)
            &&& tree_get(payload, "speed"@) matches Some(raw) && is_count(raw, speed as int)
        };
    assert(carries(step@, 0, payload));
    assert(asks_for(payload, channel, op));
}

// ---------------------------------------------------------------- answers

/// A channel is online where its entry in the camera's answer says so, and offline where
/// its entry says that.
pub proof fn law_channel_is_what_its_entry_says(
    channel: u8,
    replies: &[CgiReply],
    step: Step<ChannelStatus>,
    response: CommandResponse,
    entry: JsonTree,
    members: Seq<(Seq<char>, JsonTree)>,
    m: int,
    items: Seq<JsonTree>,
    k: int,
    online: bool,
)
    requires
        call_ensures(get_channel_status, (channel, replies), step),
        replies@.len() > 0,
        replies@[0] == Ok::<CommandResponse, AppError>(response),
        is_answer(response.raw_json@, "GetChannelStatus"@, entry),
        tree_get(entry, "value"@) == Some(JsonTree::Object(members)),
        0 <= m < members.len(),
        members[m].1 == JsonTree::Array(items),
        forall|i: int| 0 <= i < m ==> is_plain_value(#[trigger] members[i].1),
        !about_channel(JsonTree::Object(members), channel),
        0 <= k < items.len(),
        forall|i: int| 0 <= i < k ==> is_of_another(#[trigger] items[i], channel),
        is_of(items[k], channel),
        says_by(items[k], online),
    ensures
        step matches Step::Done(Ok(status)) && status.online == online && status.channel == channel,
{
    law_online_is_what_the_entry_says(
        channel,
        response.raw_json@,
        entry,
        members,
        m,
        items,
        k,
        online,
    );
    assert(reply_models(replies@)[0] == result_model(replies@[0]));
}

/// An outcome is seen as a success exactly where it is one, and its value, or the kind and
/// the words of its error, are those that are there.
pub proof fn law_outcomes_are_seen_as_they_are<T: View>(outcome: AppResult<T>)
    ensures
        outcome is Ok <==> result_model(outcome) is Ok,
        outcome matches Ok(value) ==> result_model(outcome)->Ok_0 == value@,
        outcome matches Err(error) ==> result_model(outcome)->Err_0.kind == error.kind
            && result_model(outcome)->Err_0.message == error.message@,
{
}

/// So is a step, and the answers that came so far.
pub proof fn law_steps_are_seen_as_they_are<T: View>(step: Step<T>, replies: Seq<CgiReply>)
    ensures
        step is Done <==> step_model(step) is Done,
        step matches Step::Send(request) ==> (step_model(step) matches StepModel::Send(seen)
            && seen.command == request.command && seen.action == request.action && (
        seen.params.channel == request.params.channel) && (seen.params.payload is Some
            <==> request.params.payload is Some) && (seen.params.user_name is Some
            <==> request.params.user_name is Some)),
        step matches Step::Done(outcome) ==> step_model(step) == StepModel::<T::V>::Done(
            result_model(outcome),
        ),
        reply_models(replies).len() == replies.len(),
        forall|i: int| 0 <= i < replies.len() ==> (#[trigger] replies[i] matches Ok(response) ==> (
        reply_models(replies)[i] matches Ok(seen) && seen.raw_json == response.raw_json@
            && seen.command == response.command)),
        forall|i: int| 0 <= i < replies.len() ==> (#[trigger] replies[i] matches Err(error) ==> (
        reply_models(replies)[i] matches Err(seen) && seen.kind == error.kind && seen.message
            == error.message@)),
{
}

/// The texts of a request are seen each in its own place.
pub proof fn law_params_are_seen_as_they_are(params: CommandParams)
    ensures
        params@.channel == params.channel,
        params.user_name matches Some(name) ==> params@.user_name == Some(name@),
        params.payload matches Some(payload) ==> params@.payload == Some(payload@),
        params.user_name is None ==> params@.user_name is None,
        params.payload is None ==> params@.payload is None,
{
}

/// Two statuses that are seen alike stand at the same place, with the same ends.
pub proof fn law_statuses_are_seen_as_they_are(a: PtzStatus, b: PtzStatus)
    ensures
        a@ == b@ <==> {
            &&& a.channel == b.channel
            &&& a.pan_position == b.pan_position && a.tilt_position == b.tilt_position
            &&& a.zoom_position == b.zoom_position && a.focus_position == b.focus_position
            &&& a.pan_range == b.pan_range && a.tilt_range == b.tilt_range
            &&& a.zoom_range == b.zoom_range && a.focus_range == b.focus_range
            &&& a.preset_range == b.preset_range && a.enabled_presets@ == b.enabled_presets@
            &&& a.calibration_state == b.calibration_state
        },
        a@.pan_position == a.pan_position && a@.tilt_position == a.tilt_position,
        a@.zoom_position == a.zoom_position && a@.focus_position == a.focus_position,
        a@.pan_range == a.pan_range && a@.tilt_range == a.tilt_range,
        a@.zoom_range == a.zoom_range && a@.focus_range == a.focus_range,
{
}

/// The place of the camera is that of its status, each axis its own, where both are known.
pub proof fn law_place_is_that_of_the_status(
    status: &PtzStatus,
    place: AppResult<PtzRawPosition>,
    counts: AppResult<(i64, i64)>,
)
    requires
        call_ensures(map_status_to_raw_position, (status,), place),
        call_ensures(map_status_to_counts, (status,), counts),
    ensures
        place is Ok <==> status.pan_position is Some && status.tilt_position is Some,
        counts is Ok <==> status.pan_position is Some && status.tilt_position is Some,
        place matches Ok(found) ==> {
            &&& found.channel == status.channel
            &&& Some(found.pan_count) == status.pan_position
            &&& Some(found.tilt_count) == status.tilt_position
            &&& found.zoom_count == status.zoom_position
            &&& found.focus_count == status.focus_position
        },
        counts matches Ok(found) ==> Some(found.0) == status.pan_position && Some(found.1)
            == status.tilt_position,
        place matches Err(error) ==> error.kind == ErrorKind::UnexpectedResponse,
{
}

// ---------------------------------------------------------------- figures

/// A movement is asked for with a tolerance and a time that are above zero, and no other is
/// taken.
pub proof fn law_inputs_are_above_zero(
    tolerance_count: i64,
    timeout_ms: u64,
    outcome: AppResult<()>,
)
    requires
        call_ensures(validate_inputs, (tolerance_count, timeout_ms), outcome),
    ensures
        outcome is Ok <==> tolerance_count > 0 && timeout_ms > 0,
        outcome matches Err(error) ==> error.kind == ErrorKind::InvalidInput,
{
}

/// A step and the sleep after it last as long as the step may, and no sleep follows a step
/// that took longer.
pub proof fn law_sleep_fills_the_step(step_budget_ms: u64, elapsed_nanos: u128, sleep_nanos: u128)
    requires
        call_ensures(
            remaining_control_step_sleep_duration,
            (step_budget_ms, elapsed_nanos),
            sleep_nanos,
        ),
    ensures
        elapsed_nanos <= step_budget_ms * 1_000_000 ==> elapsed_nanos + sleep_nanos
            == step_budget_ms * 1_000_000,
        elapsed_nanos >= step_budget_ms * 1_000_000 ==> sleep_nanos == 0,
{
}

/// A movement of three seconds or more is followed by two updates at least, a shorter one by
/// one; and a camera that reports a range of times is believed sooner.
pub proof fn law_least_updates_and_ages(
    timeout_ms: u64,
    updates: u64,
    with_range_ms: u64,
    without_range_ms: u64,
)
    requires
        call_ensures(min_updates_for, (timeout_ms,), updates),
        call_ensures(completion_min_age_ms, (true,), with_range_ms),
        call_ensures(completion_min_age_ms, (false,), without_range_ms),
    ensures
        updates == 2 <==> timeout_ms >= 3000,
        updates == 1 <==> timeout_ms < 3000,
        with_range_ms == 120,
        without_range_ms == 180,
        with_range_ms < without_range_ms,
{
}

/// A stored state is taken up only for the channel and the key it was stored for, and only
/// as the first schema with finite figures.
pub proof fn law_stored_state_is_its_own(
    schema_version: u32,
    stored_channel: u8,
    stored_key: &str,
    all_finite: bool,
    channel: u8,
    state_key: &str,
    taken: bool,
)
    requires
        call_ensures(
            accepts_stored_state,
            (schema_version, stored_channel, stored_key, all_finite, channel, state_key),
            taken,
        ),
    ensures
        taken ==> all_finite && schema_version == 1,
        stored_channel != channel ==> !taken,
        stored_key@ != state_key@ ==> !taken,
        stored_channel == channel && stored_key@ == state_key@ && all_finite && schema_version == 1
            ==> taken,
{
}

/// An end of the tilt axis is ahead of a push towards it, and of no other push, where it is
/// less than the margin away.
pub proof fn law_edge_lies_ahead(direction: PtzDirection, context: &EdgePushContext, ahead: bool)
    requires
        context.fits(),
        call_ensures(tilt_edge_ahead, (direction, context), ahead),
    ensures
        ahead ==> direction == PtzDirection::Up || direction == PtzDirection::Down,
        direction == PtzDirection::Up && context.tilt_measure >= context.tilt_max_count ==> ahead,
        direction == PtzDirection::Down && context.tilt_measure <= context.tilt_min_count ==> ahead,
        direction == PtzDirection::Up && ahead ==> context.tilt_max_count - context.tilt_measure
            <= 120,
        direction == PtzDirection::Down && ahead ==> context.tilt_measure - context.tilt_min_count
            <= 120,
{
}

/// Only the ONVIF interface moves by a distance.
pub proof fn law_distances_need_onvif(backend: PtzBackend, supported: bool)
    requires
        call_ensures(supports_relative_move, (backend,), supported),
    ensures
        supported <==> backend != PtzBackend::Cgi,
{
}

/// The pan axis is pushed harder and for longer than the tilt axis when it is calibrated.
pub proof fn law_calibration_pushes(
    pan_speed: u8,
    tilt_speed: u8,
    pan_ms: u64,
    tilt_ms: u64,
)
    requires
        call_ensures(calibration_pulse_speed, (AxisKind::Pan,), pan_speed),
        call_ensures(calibration_pulse_speed, (AxisKind::Tilt,), tilt_speed),
        call_ensures(calibration_pulse_ms, (AxisKind::Pan,), pan_ms),
        call_ensures(calibration_pulse_ms, (AxisKind::Tilt,), tilt_ms),
    ensures
        pan_speed == 6 && pan_ms == 220,
        tilt_speed == 4 && tilt_ms == 170,
{
}

/// The one count that stands for a deadband covers both ways, and is one of the two. A
/// deadband that is the same both ways is of one count at least.
pub proof fn law_deadband_covers_both_ways(
    deadband: DirectionalDeadband,
    one: i64,
    count: i64,
    same: DirectionalDeadband,
)
    requires
        call_ensures(DirectionalDeadband::compatibility_count, (deadband,), one),
        call_ensures(DirectionalDeadband::uniform, (count,), same),
    ensures
        one >= deadband.increase_count && one >= deadband.decrease_count,
        one == deadband.increase_count || one == deadband.decrease_count,
        same.increase_count == same.decrease_count,
        same.increase_count >= 1 && same.increase_count >= count,
        same.increase_count == 1 || same.increase_count == count,
{
}

// ---------------------------------------------------------------- addresses

/// The address of the device service has the host of the endpoint, the port that was given
/// and the path of the device service.
pub proof fn law_service_address_is_on_the_host(
    endpoint: &str,
    onvif_port: u16,
    url: Option<String>,
    host: Seq<char>,
    at_host: Seq<char>,
    at_port: Seq<char>,
)
    requires
        call_ensures(default_onvif_device_service_url, (endpoint, onvif_port), url),
    ensures
        host_of_url(endpoint@) is None ==> url is None,
        host_of_url(endpoint@) == Some(host) && url_with_host("http://localhost"@, host) == Some(
            at_host,
        ) && url_with_port(at_host, onvif_port) == Some(at_port) && default_service_url_fits(
            endpoint@,
            onvif_port,
        ) ==> match url {
            Some(text) => url_with_path(at_port, "/onvif/device_service"@) == Some(text@),
            None => url_with_path(at_port, "/onvif/device_service"@) is None,
        },
{
}

// ---------------------------------------------------------------- reading on

/// Reading the place asks what reading the status of the position asks, and hands on its
/// refusals; what is read is the place of that status.
pub proof fn law_place_is_read_from_the_position(
    channel: u8,
    replies: Seq<Result<ResponseModel, ErrorModel>>,
)
    ensures
        position_step(channel, replies) matches StepModel::Send(request) ==> raw_position_step(
            channel,
            replies,
        ) == StepModel::<PtzRawPosition>::Send(request),
        position_step(channel, replies) matches StepModel::Done(Err(error)) ==> raw_position_step(
            channel,
            replies,
        ) == StepModel::<PtzRawPosition>::Done(Err(error)),
        raw_position_step(channel, replies) matches StepModel::Done(Ok(place)) ==> (position_step(
            channel,
            replies,
        ) matches StepModel::Done(Ok(status)) && status.pan_position == Some(place.pan_count)
            && status.tilt_position == Some(place.tilt_count) && status.channel == place.channel),
{
}

/// The status of the ONVIF interface is asked for over ONVIF alone: the other interface has
/// none, and without an address there is a refusal.
pub proof fn law_onvif_status_needs_onvif(
    config: Option<ConfigModel>,
    channel: u8,
    services: Option<ServicesModel>,
    soap: Seq<Result<Seq<char>, ErrorModel>>,
)
    ensures
        status_transport_step(PtzBackend::Cgi, config, channel, services, soap)
            == TransportModel::<Option<StatusFieldsModel>>::Done(Ok(None)),
        config is None ==> (status_transport_step(
            PtzBackend::OnvifContinuous,
            config,
            channel,
            services,
            soap,
        ) matches TransportModel::Done(Err(error)) && error.kind == ErrorKind::InvalidInput),
        !(status_transport_step(PtzBackend::OnvifContinuous, config, channel, services, soap)
            matches TransportModel::Done(Ok(None))),
{
}

/// The pushes and the waits that do not depend on the axis: three steps without progress turn
/// the order of the axes round, a restoring push lasts 220 ms and is given 80 ms to settle,
/// and the deadband is looked for at speed 2 after a preload of 24 ms.
pub proof fn law_fixed_measures()
    ensures
        DUAL_AXIS_CLOSE_NO_PROGRESS_TOGGLE_STEPS == 3,
        CALIBRATION_RESTORE_PULSE_MS == 220,
        CALIBRATION_SETTLE_MS == 80,
        CALIBRATION_DEADBAND_PROBE_SPEED == 2,
        CALIBRATION_DEADBAND_PRELOAD_MS == 24,
{
}

} // verus!
