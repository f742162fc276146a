//! Moving to a position: the time that is allowed, trying again, and stopping.
use crate::error::{ErrorKind, ErrorModel};
use crate::reolink::onvif::OptionsModel;
use crate::text::{contains, dec};
use crate::usecases::failure_modes::{counters_in, counters_max, FailureModeCounters};
use crate::usecases::ptz_get_absolute_raw::PtzRawPosition;
use crate::usecases::ptz_set_absolute_raw::{
    absolute_step, after_stop, blocker_label, duration_ms_of, forces_cgi, hint_text, input_error,
    is_timeout, merged_error, retry_budget, state_path_beside, timeout_budget, AbsoluteModel,
};
use crate::usecases::ptz_transport::TransportMotionHint;
use vstd::prelude::*;

verus! {

/// A movement needs a tolerance and a time, and nothing else is refused.
pub proof fn law_inputs_are_checked(tolerance_count: int, timeout_ms: int)
    requires
        timeout_ms >= 0,
    ensures
        input_error(tolerance_count, timeout_ms) is None <==> tolerance_count >= 1 && timeout_ms >= 1,
        input_error(tolerance_count, timeout_ms) matches Some(error) ==> error.kind
            == ErrorKind::InvalidInput,
{
}

/// The second try gets three times the time, between eighteen and thirty-six seconds.
pub proof fn law_second_try_gets_more_time(timeout_ms: int)
    ensures
        6000 <= timeout_ms <= 12000 ==> retry_budget(timeout_ms) == 3 * timeout_ms,
        timeout_ms < 6000 ==> retry_budget(timeout_ms) == 18000,
        timeout_ms > 12000 ==> retry_budget(timeout_ms) == 36000,
{
}

/// Time that is added is no more than was asked for, than half of the time there is, and than
/// eight seconds, and it is added in full within these.
pub proof fn law_added_time(base_timeout_ms: u64, raw_slack_ms: u64)
    requires
        base_timeout_ms >= 2,
        base_timeout_ms <= 1000000000,
    ensures
        ({
            let budget = timeout_budget(base_timeout_ms, raw_slack_ms);
            &&& budget.base_timeout_ms == base_timeout_ms
            &&& budget.raw_slack_ms == raw_slack_ms
            &&& budget.effective_timeout_ms == base_timeout_ms + budget.applied_slack_ms
            &&& raw_slack_ms <= 8000 && 2 * raw_slack_ms <= base_timeout_ms
                ==> budget.applied_slack_ms == raw_slack_ms
            &&& base_timeout_ms >= 16000 ==> budget.slack_cap_ms == 8000
            &&& base_timeout_ms <= 16000 ==> 2 * budget.slack_cap_ms <= base_timeout_ms < 2
                * budget.slack_cap_ms + 2
            &&& raw_slack_ms >= budget.slack_cap_ms ==> budget.applied_slack_ms
                == budget.slack_cap_ms
        }),
{
}

/// The first try runs for the time that was given; after a try that timed out there is a
/// second one for longer; and whatever came of it, the camera is stopped before it is
/// reported.
pub proof fn law_tries_and_their_times(
    channel: u8,
    tolerance_count: i64,
    timeout_ms: u64,
    position: PtzRawPosition,
    first: ErrorModel,
    second: ErrorModel,
)
    requires
        tolerance_count >= 1,
        timeout_ms >= 1,
    ensures
        absolute_step(channel, tolerance_count, timeout_ms, Seq::empty(), None) == (
        AbsoluteModel::Run { timeout_ms }),
        is_timeout(first) && 6000 <= timeout_ms <= 12000 ==> absolute_step(
            channel,
            tolerance_count,
            timeout_ms,
            seq![Err(first)],
            None,
        ) == (AbsoluteModel::Run { timeout_ms: (3 * timeout_ms) as u64 }),
        !is_timeout(first) ==> absolute_step(
            channel,
            tolerance_count,
            timeout_ms,
            seq![Err(first)],
            None,
        ) is Stop,
        !is_timeout(first) ==> absolute_step(
            channel,
            tolerance_count,
            timeout_ms,
            seq![Err(first)],
            Some(Ok(())),
        ) == AbsoluteModel::Done(Err::<PtzRawPosition, ErrorModel>(first)),
        absolute_step(channel, tolerance_count, timeout_ms, seq![Ok(position)], None) is Stop,
        absolute_step(channel, tolerance_count, timeout_ms, seq![Ok(position)], Some(Ok(())))
            == AbsoluteModel::Done(Ok::<PtzRawPosition, ErrorModel>(position)),
        is_timeout(first) ==> absolute_step(
            channel,
            tolerance_count,
            timeout_ms,
            seq![Err(first), Ok(position)],
            Some(Ok(())),
        ) == AbsoluteModel::Done(Ok::<PtzRawPosition, ErrorModel>(position)),
        is_timeout(first) ==> (absolute_step(
            channel,
            tolerance_count,
            timeout_ms,
            seq![Err(first), Err(second)],
            Some(Ok(())),
        ) matches AbsoluteModel::Done(Err(error)) && error.kind == second.kind),
{
    let good = Ok::<PtzRawPosition, ErrorModel>(position);
    let bad = Err::<PtzRawPosition, ErrorModel>(first);
    let worse = Err::<PtzRawPosition, ErrorModel>(second);
    assert(seq![bad][0] == bad);
    assert(seq![good][0] == good);
    assert(seq![bad, good][0] == bad && seq![bad, good][1] == good);
    assert(seq![bad, worse][0] == bad && seq![bad, worse][1] == worse);
}

/// A camera that could not be stopped is an error, even where the movement succeeded; where it
/// failed, its own error leads.
pub proof fn law_stopping_can_fail(
    channel: u8,
    position: PtzRawPosition,
    error: ErrorModel,
    stop: ErrorModel,
)
    ensures
        after_stop(channel, Ok::<PtzRawPosition, ErrorModel>(position), None) == Ok::<
            PtzRawPosition,
            ErrorModel,
        >(position),
        after_stop(channel, Ok::<PtzRawPosition, ErrorModel>(position), Some(stop)) is Err,
        after_stop(channel, Err::<PtzRawPosition, ErrorModel>(error), None) == Err::<
            PtzRawPosition,
            ErrorModel,
        >(error),
        after_stop(channel, Err::<PtzRawPosition, ErrorModel>(error), Some(stop)) matches Err(
            both,
        ) && both.kind == error.kind && error.message.is_prefix_of(both.message),
{
    let both = after_stop(channel, Err::<PtzRawPosition, ErrorModel>(error), Some(stop))->Err_0;
    assert(error.message =~= both.message.subrange(0, error.message.len() as int));
}

/// A timeout is an unexpected response that says so.
pub proof fn law_what_a_timeout_is(error: ErrorModel)
    ensures
        is_timeout(error) <==> error.kind == ErrorKind::UnexpectedResponse && contains(
            error.message,
            "set_absolute_raw timeout"@,
        ),
{
}

/// Where two tries failed, both are told, the first before the second, with the larger of
/// their counters.
pub proof fn law_both_tries_are_told(
    first: ErrorModel,
    second: ErrorModel,
    one: FailureModeCounters,
    other: FailureModeCounters,
)
    requires
        counters_in(first.message) == Some(one),
        counters_in(second.message) == Some(other),
    ensures
        merged_error(first, second).kind == second.kind,
        merged_error(first, second).message == "initial_timeout='"@ + first.message
            + "'; retry_timeout='"@ + second.message + "'; initial_failure_modes="@
            + crate::usecases::failure_modes::counters_text(one) + "; retry_failure_modes="@
            + crate::usecases::failure_modes::counters_text(other) + "; failure_modes_max="@
            + crate::usecases::failure_modes::counters_text(counters_max(one, other)),
{
}

/// What kept a movement from counting as finished.
pub proof fn law_blocker_is_named(
    within_tolerance: bool,
    completion_ready: bool,
    best_within: bool,
    latch_eligible: bool,
)
    ensures
        within_tolerance && !completion_ready ==> blocker_label(
            within_tolerance,
            completion_ready,
            best_within,
            latch_eligible,
        ) == "completion_gate"@,
        !(within_tolerance && !completion_ready) && best_within && !latch_eligible
            ==> blocker_label(within_tolerance, completion_ready, best_within, latch_eligible)
            == "latch_gate"@,
        !within_tolerance && !(best_within && !latch_eligible) ==> blocker_label(
            within_tolerance,
            completion_ready,
            best_within,
            latch_eligible,
        ) == "residual_error"@,
{
}

/// What is known of the motion, as a text.
pub proof fn law_motion_as_a_text(age_ms: u64)
    ensures
        hint_text(None) == "none"@,
        hint_text(Some(TransportMotionHint { moving: Some(true), move_age_ms: Some(age_ms) }))
            == "moving"@ + "@"@ + (dec(age_ms as nat) + "ms"@),
        hint_text(Some(TransportMotionHint { moving: Some(false), move_age_ms: Some(age_ms) }))
            == "stopped"@ + "@"@ + (dec(age_ms as nat) + "ms"@),
        hint_text(Some(TransportMotionHint { moving: None, move_age_ms: None })) == "unknown"@
            + "@"@ + "n/a"@,
{
}

/// ONVIF is given up for pushes where the camera cannot be moved by distances and its
/// shortest movement lasts a second or more.
pub proof fn law_onvif_is_given_up(options: OptionsModel, shortest: Seq<char>, ms: u64)
    requires
        options.timeout_min == Some(shortest),
        duration_ms_of(shortest) == Some(ms),
        options.has_timeout_range,
    ensures
        forces_cgi(Some(options)) <==> !options.supports_relative_pan_tilt_translation && ms >= 1000,
        !forces_cgi(None),
{
}

// ---------------------------------------------------------------- what is kept between movements

/// What is learned of a camera is kept under its address and its channel, beside its
/// calibrations.
pub proof fn law_place_of_what_is_learned(
    env: crate::interfaces::runtime::EnvironmentModel,
    endpoint: Seq<char>,
    channel: u8,
)
    ensures
        crate::usecases::ptz_set_absolute_raw::state_key_of(endpoint, channel)
            == crate::interfaces::runtime::key_component(endpoint) + ".ch"@ + dec(channel as nat),
        crate::usecases::ptz_set_absolute_raw::state_path_of(env, endpoint, channel)
            == crate::interfaces::runtime::path_below(
            crate::interfaces::runtime::calibration_dir_of(env),
            crate::interfaces::runtime::key_component(endpoint) + ".ch"@ + dec(channel as nat)
                + ".ekf-count.json"@,
        ),
{
}

/// Beside a calibration it is kept in the same directory, under the name of the calibration
/// without its ending.
pub proof fn law_place_beside_a_calibration(
    dir: Seq<char>,
    name: Seq<char>,
    ending: Seq<char>,
    channel: u8,
)
    requires
        name.len() > 0,
        forall|i: int| 0 <= i < name.len() ==> #[trigger] name[i] != '/',
        forall|i: int| 0 <= i < ending.len() ==> #[trigger] ending[i] != '/' && ending[i] != '.',
    ensures
        state_path_beside(dir + "/"@ + name + "."@ + ending, channel) == dir + "/"@ + name + ".ch"@
            + dec(channel as nat) + ".ekf.json"@,
{
    reveal_strlit("/");
    reveal_strlit(".");
    let path = dir + "/"@ + name + "."@ + ending;
    let at = dir.len() as int;
    assert(path[at] == '/');
    assert forall|j: int| at < j < path.len() implies path[j] != '/' by {
        if j <= at + name.len() {
            assert(path[j] == name[j - at - 1]);
        } else if j > at + name.len() + 1 {
            assert(path[j] == ending[j - at - name.len() - 2]);
        }
    }
    crate::laws::documents::law_letters_are_found(path, '/', 0, at);
    let file = name + "."@ + ending;
    assert(path.skip(at + 1) =~= file);
    assert(path.take(at + 1) =~= dir + "/"@);
    let dot = name.len() as int;
    assert(file[dot] == '.');
    assert forall|j: int| dot < j < file.len() implies file[j] != '.' by {
        assert(file[j] == ending[j - dot - 1]);
    }
    crate::laws::documents::law_letters_are_found(file, '.', 0, dot);
    assert(file.take(dot) =~= name);
}

} // verus!
