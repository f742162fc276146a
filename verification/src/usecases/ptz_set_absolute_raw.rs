//! Moving the camera to a position in counts: what is tried, how long, and what is said of
//! it.
use crate::error::{error_model, result_model, AppError, AppResult, ErrorKind, ErrorModel};
use crate::interfaces::runtime::{
    calibration_dir_from_env, calibration_dir_of, join_path, key_component, path_below,
    sanitize_key_component, Environment, EnvironmentModel, PtzBackend,
};
use crate::reolink::onvif::{OnvifPtzConfigurationOptions, OptionsModel};
use crate::reolink::ptz::unit_model;
use crate::text::{
    contains, contains_text, dec, dec_u64, join2, join3, last_index_of, last_index_of_char,
    occurs_at, slice_text, starts_with, to_chars, trim, trim_text,
};
use crate::usecases::failure_modes::{
    counters_in, counters_max, counters_text, format_failure_mode_counters,
    law_counters_read_back, max_failure_mode_counters, no_failures, parse_failure_mode_counters,
    FailureModeCounters, COUNTERS_START,
};
use crate::usecases::ptz_control_loop::distance;
use crate::usecases::ptz_get_absolute_raw::PtzRawPosition;
use crate::usecases::ptz_loop_state::{
    best_is_measured, law_success_is_near_the_target, verdict_of, LoopEvidence, LoopState,
    LoopVerdict,
};
use crate::usecases::ptz_transport::TransportMotionHint;
use crate::usecases::seconds_text::{parse_seconds_ms, seconds_ms};
use vstd::prelude::*;

verus! {

pub const TIMEOUT_RETRY_BUDGET_MIN_MS: u64 = 18000;

pub const TIMEOUT_RETRY_BUDGET_MAX_MS: u64 = 36000;

pub const ADAPTIVE_TIMEOUT_MAX_SLACK_MS: u64 = 8000;

pub const BACKEND_COMPLETION_MIN_AGE_MS: u64 = 120;

pub const MIN_ADAPTIVE_UPDATES: u64 = 2;

/// What the message of a movement that ran out of time begins with.
pub const TIMEOUT_WORDS: &'static str = "set_absolute_raw timeout";

/// The version of the stored state of the filters.
pub const EKF_STATE_SCHEMA_VERSION: u32 = 1;

// ---------------------------------------------------------------- input

/// A movement needs a tolerance and some time.
pub open spec fn input_error(tolerance_count: int, timeout_ms: int) -> Option<ErrorModel> {
    if tolerance_count <= 0 {
        Some(error_model(ErrorKind::InvalidInput, "tolerance count must be greater than 0"@))
    } else if timeout_ms == 0 {
        Some(error_model(ErrorKind::InvalidInput, "timeout_ms must be greater than 0"@))
    } else {
        None
    }
}

/// The error of a result that has no value.
pub open spec fn unit_error(r: AppResult<()>) -> Option<ErrorModel> {
    match r {
        Ok(_) => None,
        Err(error) => Some(error@),
    }
}

pub fn validate_inputs(tolerance_count: i64, timeout_ms: u64) -> (r: AppResult<()>)
    ensures
        unit_error(r) == input_error(tolerance_count as int, timeout_ms as int),
{
    if tolerance_count <= 0 {
        return Err(
            AppError::new(ErrorKind::InvalidInput, "tolerance count must be greater than 0"),
        );
    }
    if timeout_ms == 0 {
        return Err(AppError::new(ErrorKind::InvalidInput, "timeout_ms must be greater than 0"));
    }
    Ok(())
}

// ---------------------------------------------------------------- time

/// Three times the time, kept between eighteen and thirty-six seconds.
pub open spec fn retry_budget(timeout_ms: int) -> int {
    if 3 * timeout_ms < TIMEOUT_RETRY_BUDGET_MIN_MS {
        TIMEOUT_RETRY_BUDGET_MIN_MS as int
    } else if 3 * timeout_ms > TIMEOUT_RETRY_BUDGET_MAX_MS {
        TIMEOUT_RETRY_BUDGET_MAX_MS as int
    } else {
        3 * timeout_ms
    }
}

/// The time for a second try.
pub fn timeout_retry_budget_ms(timeout_ms: u64) -> (r: u64)
    ensures
        r == retry_budget(timeout_ms as int),
{
    if timeout_ms < TIMEOUT_RETRY_BUDGET_MIN_MS / 3 {
        TIMEOUT_RETRY_BUDGET_MIN_MS
    } else if timeout_ms > TIMEOUT_RETRY_BUDGET_MAX_MS / 3 {
        TIMEOUT_RETRY_BUDGET_MAX_MS
    } else {
        3 * timeout_ms
    }
}

/// How much longer than its time a movement may take, for a camera that answers slowly.
#[derive(Debug, Clone, Copy, PartialEq, Eq, Structural)]
pub struct AdaptiveTimeoutBudget {
    pub base_timeout_ms: u64,
    pub raw_slack_ms: u64,
    pub slack_cap_ms: u64,
    pub applied_slack_ms: u64,
    pub effective_timeout_ms: u64,
}

/// The slack is at most half of the time, at least a millisecond and at most eight seconds.
pub open spec fn slack_cap(base_timeout_ms: u64) -> u64 {
    let half = base_timeout_ms / 2;
    if half < 1 {
        1
    } else if half > ADAPTIVE_TIMEOUT_MAX_SLACK_MS {
        ADAPTIVE_TIMEOUT_MAX_SLACK_MS
    } else {
        half
    }
}

pub open spec fn smaller(a: u64, b: u64) -> u64 {
    if a <= b {
        a
    } else {
        b
    }
}

pub open spec fn saturated(n: int) -> u64 {
    if n > u64::MAX {
        u64::MAX
    } else {
        n as u64
    }
}

pub open spec fn timeout_budget(base_timeout_ms: u64, raw_slack_ms: u64) -> AdaptiveTimeoutBudget {
    let applied_slack_ms = smaller(raw_slack_ms, slack_cap(base_timeout_ms));
    AdaptiveTimeoutBudget {
        base_timeout_ms,
        raw_slack_ms,
        slack_cap_ms: slack_cap(base_timeout_ms),
        applied_slack_ms,
        effective_timeout_ms: saturated(base_timeout_ms + applied_slack_ms),
    }
}

pub fn adaptive_timeout_slack_cap_ms(base_timeout_ms: u64) -> (r: u64)
    ensures
        r == slack_cap(base_timeout_ms),
{
    let half: u64 = base_timeout_ms / 2;
    if half < 1 {
        1
    } else if half > ADAPTIVE_TIMEOUT_MAX_SLACK_MS {
        ADAPTIVE_TIMEOUT_MAX_SLACK_MS
    } else {
        half
    }
}

/// The time that a movement has, with the slack that the answers so far suggest.
pub fn adaptive_timeout_budget(base_timeout_ms: u64, raw_slack_ms: u64) -> (r:
    AdaptiveTimeoutBudget)
    ensures
        r == timeout_budget(base_timeout_ms, raw_slack_ms),
{
    let slack_cap_ms: u64 = adaptive_timeout_slack_cap_ms(base_timeout_ms);
    let applied_slack_ms: u64 = if raw_slack_ms <= slack_cap_ms {
        raw_slack_ms
    } else {
        slack_cap_ms
    };
    AdaptiveTimeoutBudget {
        base_timeout_ms,
        raw_slack_ms,
        slack_cap_ms,
        applied_slack_ms,
        effective_timeout_ms: base_timeout_ms.saturating_add(applied_slack_ms),
    }
}

/// How many readings a movement takes at least.
pub fn min_updates_for(timeout_ms: u64) -> (r: u64)
    ensures
        r == if timeout_ms >= 3000 {
            MIN_ADAPTIVE_UPDATES
        } else {
            1
        },
{
    if timeout_ms >= 3000 {
        MIN_ADAPTIVE_UPDATES
    } else {
        1
    }
}

/// How old a movement must be before it counts as finished: older where the camera does
/// not say how long it moves.
pub fn completion_min_age_ms(has_timeout_range: bool) -> (r: u64)
    ensures
        r == if has_timeout_range {
            120u64
        } else {
            180u64
        },
{
    if has_timeout_range {
        BACKEND_COMPLETION_MIN_AGE_MS
    } else {
        BACKEND_COMPLETION_MIN_AGE_MS + 60
    }
}

/// What is left of the time of a step, in nanoseconds.
pub fn remaining_control_step_sleep_duration(step_budget_ms: u64, elapsed_nanos: u128) -> (r: u128)
    ensures
        r == if step_budget_ms * 1_000_000 > elapsed_nanos {
            step_budget_ms * 1_000_000 - elapsed_nanos
        } else {
            0
        },
{
    let budget_nanos: u128 = step_budget_ms as u128 * 1_000_000;
    if budget_nanos > elapsed_nanos {
        budget_nanos - elapsed_nanos
    } else {
        0
    }
}

// ---------------------------------------------------------------- durations

/// The milliseconds of a duration: `PT`, a number of seconds and `S`.
pub open spec fn duration_ms_of(raw: Seq<char>) -> Option<u64> {
    let text = trim(raw);
    if starts_with(text, "PT"@) && text.len() >= 3 && text.last() == 'S' {
        seconds_ms(text.subrange(2, text.len() - 1))
    } else {
        None
    }
}

/// The milliseconds of a duration.
pub fn parse_onvif_duration_ms(raw: &str) -> (r: Option<u64>)
    ensures
        r == duration_ms_of(raw@),
{
    let text = trim_text(raw);
    let chars = to_chars(text.as_str());
    proof {
        reveal_strlit("PT");
    }
    if chars.len() < 3 || chars[0] != 'P' || chars[1] != 'T' || chars[chars.len() - 1] != 'S' {
        proof {
            if chars@.len() >= 2 && occurs_at(chars@, "PT"@, 0) {
                assert(chars@.subrange(0, 2)[0] == chars@[0]);
                assert(chars@.subrange(0, 2)[1] == chars@[1]);
            }
        }
        return None;
    }
    proof {
        assert(chars@.subrange(0, 2) =~= "PT"@);
    }
    parse_seconds_ms(vstd::slice::slice_subrange(chars.as_slice(), 2, chars.len() - 1))
}

/// Short movements are better made over the CGI interface where the ONVIF interface can
/// neither move by a distance nor move for less than a second.
pub open spec fn forces_cgi(options: Option<OptionsModel>) -> bool {
    &&& options matches Some(known)
    &&& !known.supports_relative_pan_tilt_translation
    &&& known.has_timeout_range
    &&& known.timeout_min matches Some(shortest)
    &&& duration_ms_of(shortest) matches Some(ms)
    &&& ms >= 1000
}

pub open spec fn optional_options_model(options: Option<&OnvifPtzConfigurationOptions>) -> Option<
    OptionsModel,
> {
    match options {
        Some(known) => Some(known@),
        None => None,
    }
}

pub fn should_force_cgi_for_onvif_options(options: Option<&OnvifPtzConfigurationOptions>) -> (r:
    bool)
    ensures
        r == forces_cgi(optional_options_model(options)),
{
    match options {
        None => false,
        Some(known) => {
            if known.supports_relative_pan_tilt_translation || !known.has_timeout_range {
                return false;
            }
            match &known.timeout_min {
                None => false,
                Some(shortest) => match parse_onvif_duration_ms(shortest.as_str()) {
                    Some(ms) => ms >= 1000,
                    None => false,
                },
            }
        },
    }
}

/// Whether a movement is made over the CGI interface although the ONVIF interface is
/// chosen, given the options, where they were read.
pub fn should_force_cgi_pulse_transport(
    backend: PtzBackend,
    options: Option<&OnvifPtzConfigurationOptions>,
) -> (r: bool)
    ensures
        r == (backend == PtzBackend::OnvifContinuous && forces_cgi(
            optional_options_model(options),
        )),
{
    match backend {
        PtzBackend::Cgi => false,
        PtzBackend::OnvifContinuous => should_force_cgi_for_onvif_options(options),
    }
}

// ---------------------------------------------------------------- running out of time

/// The error of a movement that ran out of time: what is said of the movement before and
/// after its failure counters is given.
pub open spec fn timed_out(
    effective_timeout_ms: u64,
    channel: u8,
    before: Seq<char>,
    counters: FailureModeCounters,
    after: Seq<char>,
) -> ErrorModel {
    error_model(
        ErrorKind::UnexpectedResponse,
        TIMEOUT_WORDS@ + " after "@ + dec(effective_timeout_ms as nat) + "ms on channel "@ + dec(
            channel as nat,
        ) + ": "@ + before + " failure_modes="@ + counters_text(counters) + after,
    )
}

pub fn timeout_error(
    effective_timeout_ms: u64,
    channel: u8,
    before: &str,
    counters: FailureModeCounters,
    after: &str,
) -> (r: AppError)
    ensures
        r@ == timed_out(effective_timeout_ms, channel, before@, counters, after@),
{
    let time = dec_u64(effective_timeout_ms);
    let channel_text = dec_u64(channel as u64);
    let text = join3(TIMEOUT_WORDS, " after ", time.as_str());
    let text = join3(text.as_str(), "ms on channel ", channel_text.as_str());
    let text = join3(text.as_str(), ": ", before);
    let modes = format_failure_mode_counters(counters);
    let text = join3(text.as_str(), " failure_modes=", modes.as_str());
    AppError::with_message(ErrorKind::UnexpectedResponse, join2(text.as_str(), after))
}

/// A second try is made after a movement that ran out of time, and only then.
pub open spec fn is_timeout(error: ErrorModel) -> bool {
    error.kind == ErrorKind::UnexpectedResponse && contains(error.message, TIMEOUT_WORDS@)
}

pub fn should_retry_after_timeout(error: &AppError) -> (r: bool)
    ensures
        r == is_timeout(error@),
{
    if error.kind != ErrorKind::UnexpectedResponse {
        return false;
    }
    contains_text(error.message.as_str(), TIMEOUT_WORDS)
}

/// The counters that a message mentions, or none.
pub open spec fn counters_or_none(message: Seq<char>) -> FailureModeCounters {
    match counters_in(message) {
        Some(counters) => counters,
        None => no_failures(),
    }
}

fn counters_of(message: &str) -> (r: FailureModeCounters)
    ensures
        r == counters_or_none(message@),
{
    match parse_failure_mode_counters(message) {
        Some(counters) => counters,
        None => FailureModeCounters::default(),
    }
}

/// The error of two tries that failed: both messages, the counters of both, and the larger
/// of each two counters.
pub open spec fn merged_error(initial: ErrorModel, retry: ErrorModel) -> ErrorModel {
    let initial_modes = counters_or_none(initial.message);
    let retry_modes = counters_or_none(retry.message);
    error_model(
        retry.kind,
        "initial_timeout='"@ + initial.message + "'; retry_timeout='"@ + retry.message
            + "'; initial_failure_modes="@ + counters_text(initial_modes)
            + "; retry_failure_modes="@ + counters_text(retry_modes) + "; failure_modes_max="@
            + counters_text(counters_max(initial_modes, retry_modes)),
    )
}

pub fn merge_retry_timeout_errors(initial_error: &AppError, retry_error: &AppError) -> (r: AppError)
    ensures
        r@ == merged_error(initial_error@, retry_error@),
{
    let initial_modes = counters_of(initial_error.message.as_str());
    let retry_modes = counters_of(retry_error.message.as_str());
    let max_modes = max_failure_mode_counters(initial_modes, retry_modes);
    let initial_text = format_failure_mode_counters(initial_modes);
    let retry_text = format_failure_mode_counters(retry_modes);
    let max_text = format_failure_mode_counters(max_modes);
    let text = join3("initial_timeout='", initial_error.message.as_str(), "'; retry_timeout='");
    let text = join3(text.as_str(), retry_error.message.as_str(), "'; initial_failure_modes=");
    let text = join3(text.as_str(), initial_text.as_str(), "; retry_failure_modes=");
    let text = join3(text.as_str(), retry_text.as_str(), "; failure_modes_max=");
    AppError::with_message(retry_error.kind, join2(text.as_str(), max_text.as_str()))
}

/// What keeps a movement that ran out of time from counting as finished.
pub open spec fn blocker_label(
    within_tolerance: bool,
    backend_completion_ready: bool,
    best_within_success_tol: bool,
    latch_eligible: bool,
) -> Seq<char> {
    if within_tolerance && !backend_completion_ready {
        "completion_gate"@
    } else if best_within_success_tol && !latch_eligible {
        "latch_gate"@
    } else if !within_tolerance {
        "residual_error"@
    } else {
        "unknown"@
    }
}

pub fn timeout_blocker_label(
    within_tolerance: bool,
    backend_completion_ready: bool,
    best_within_success_tol: bool,
    latch_eligible: bool,
) -> (r: &'static str)
    ensures
        r@ == blocker_label(
            within_tolerance,
            backend_completion_ready,
            best_within_success_tol,
            latch_eligible,
        ),
{
    if within_tolerance && !backend_completion_ready {
        "completion_gate"
    } else if best_within_success_tol && !latch_eligible {
        "latch_gate"
    } else if !within_tolerance {
        "residual_error"
    } else {
        "unknown"
    }
}

/// A hint as it stands in a message.
pub open spec fn hint_text(hint: Option<TransportMotionHint>) -> Seq<char> {
    match hint {
        None => "none"@,
        Some(known) => {
            let moving = match known.moving {
                Some(moves) => if moves {
                    "moving"@
                } else {
                    "stopped"@
                },
                None => "unknown"@,
            };
            let age = match known.move_age_ms {
                Some(ms) => dec(ms as nat) + "ms"@,
                None => "n/a"@,
            };
            moving + "@"@ + age
        },
    }
}

pub fn format_transport_hint(hint: Option<TransportMotionHint>) -> (r: String)
    ensures
        r@ == hint_text(hint),
{
    match hint {
        None => "none".to_owned(),
        Some(known) => {
            let moving = match known.moving {
                Some(true) => "moving",
                Some(false) => "stopped",
                None => "unknown",
            };
            let age = match known.move_age_ms {
                Some(ms) => join2(dec_u64(ms).as_str(), "ms"),
                None => "n/a".to_owned(),
            };
            join3(moving, "@", age.as_str())
        },
    }
}

// ---------------------------------------------------------------- the operation

/// The next step of moving to a position: a try with the given time, stopping the camera,
/// or what came of it.
pub enum AbsoluteStep {
    Run { timeout_ms: u64 },
    Stop,
    Done(AppResult<PtzRawPosition>),
}

pub ghost enum AbsoluteModel {
    Run { timeout_ms: u64 },
    Stop,
    Done(Result<PtzRawPosition, ErrorModel>),
}

impl View for AbsoluteStep {
    type V = AbsoluteModel;

    open spec fn view(&self) -> AbsoluteModel {
        match self {
            AbsoluteStep::Run { timeout_ms } => AbsoluteModel::Run { timeout_ms: *timeout_ms },
            AbsoluteStep::Stop => AbsoluteModel::Stop,
            AbsoluteStep::Done(result) => AbsoluteModel::Done(result_model(*result)),
        }
    }
}

pub open spec fn run_models(runs: Seq<AppResult<PtzRawPosition>>) -> Seq<
    Result<PtzRawPosition, ErrorModel>,
> {
    Seq::new(runs.len(), |i: int| result_model(runs[i]))
}

/// What the tries came to, or the time of the next one.
pub open spec fn tries_outcome(
    timeout_ms: u64,
    runs: Seq<Result<PtzRawPosition, ErrorModel>>,
) -> Result<Result<PtzRawPosition, ErrorModel>, u64> {
    if runs.len() == 0 {
        Err(timeout_ms)
    } else {
        match runs[0] {
            Ok(position) => Ok(Ok(position)),
            Err(initial) => if !is_timeout(initial) {
                Ok(Err(initial))
            } else if runs.len() == 1 {
                Err(retry_budget(timeout_ms as int) as u64)
            } else {
                match runs[1] {
                    Ok(position) => Ok(Ok(position)),
                    Err(retry) => Ok(Err(merged_error(initial, retry))),
                }
            },
        }
    }
}

/// What an operation comes to once the camera was told to stop: a stop that failed is an
/// error, or is added to the error that there is.
pub open spec fn after_stop<V>(
    channel: u8,
    outcome: Result<V, ErrorModel>,
    stop_error: Option<ErrorModel>,
) -> Result<V, ErrorModel> {
    match (outcome, stop_error) {
        (Ok(value), None) => Ok(value),
        (Ok(_), Some(stop)) => Err(
            error_model(
                ErrorKind::UnexpectedResponse,
                "set_absolute_raw completed but failed to send Stop on channel "@ + dec(
                    channel as nat,
                ) + ": "@ + stop.message,
            ),
        ),
        (Err(error), None) => Err(error),
        (Err(error), Some(stop)) => Err(
            error_model(
                error.kind,
                error.message + " (also failed to send Stop on channel "@ + dec(channel as nat)
                    + ": "@ + stop.message + ")"@,
            ),
        ),
    }
}

/// Moving to a position: a try, a second one where the first ran out of time, and in any
/// case the camera is told to stop.
pub open spec fn absolute_step(
    channel: u8,
    tolerance_count: i64,
    timeout_ms: u64,
    runs: Seq<Result<PtzRawPosition, ErrorModel>>,
    stopped: Option<Result<(), ErrorModel>>,
) -> AbsoluteModel {
    match input_error(tolerance_count as int, timeout_ms as int) {
        Some(error) => AbsoluteModel::Done(Err(error)),
        None => match tries_outcome(timeout_ms, runs) {
            Err(next_timeout_ms) => AbsoluteModel::Run { timeout_ms: next_timeout_ms },
            Ok(outcome) => match stopped {
                None => AbsoluteModel::Stop,
                Some(Ok(_)) => AbsoluteModel::Done(after_stop(channel, outcome, None)),
                Some(Err(stop)) => AbsoluteModel::Done(after_stop(channel, outcome, Some(stop))),
            },
        },
    }
}

pub open spec fn optional_unit(stopped: Option<&AppResult<()>>) -> Option<Result<(), ErrorModel>> {
    match stopped {
        Some(result) => Some(unit_model(*result)),
        None => None,
    }
}

/// What an operation comes to once the camera was told to stop.
pub fn finalize_with_best_effort_stop(
    channel: u8,
    result: AppResult<PtzRawPosition>,
    stopped: &AppResult<()>,
) -> (r: AppResult<PtzRawPosition>)
    ensures
        result_model(r) == after_stop(channel, result_model(result), unit_error(*stopped)),
{
    match stopped {
        Ok(_) => result,
        Err(stop) => {
            let channel_text = dec_u64(channel as u64);
            match result {
                Ok(_) => {
                    let text = join3(
                        "set_absolute_raw completed but failed to send Stop on channel ",
                        channel_text.as_str(),
                        ": ",
                    );
                    Err(
                        AppError::with_message(
                            ErrorKind::UnexpectedResponse,
                            join2(text.as_str(), stop.message.as_str()),
                        ),
                    )
                },
                Err(error) => {
                    let text = join3(
                        error.message.as_str(),
                        " (also failed to send Stop on channel ",
                        channel_text.as_str(),
                    );
                    let text = join3(text.as_str(), ": ", stop.message.as_str());
                    Err(AppError::with_message(error.kind, join2(text.as_str(), ")")))
                },
            }
        },
    }
}

/// Moves the camera to a position: what to do next, given what came of the tries and of
/// stopping so far.
pub fn execute(
    channel: u8,
    tolerance_count: i64,
    timeout_ms: u64,
    runs: &[AppResult<PtzRawPosition>],
    stopped: Option<&AppResult<()>>,
) -> (r: AbsoluteStep)
    ensures
        r@ == absolute_step(
            channel,
            tolerance_count,
            timeout_ms,
            run_models(runs@),
            optional_unit(stopped),
        ),
{
    if let Err(error) = validate_inputs(tolerance_count, timeout_ms) {
        return AbsoluteStep::Done(Err(error));
    }
    if runs.len() == 0 {
        return AbsoluteStep::Run { timeout_ms };
    }
    let outcome = match &runs[0] {
        Ok(position) => Ok(*position),
        Err(initial) => {
            if !should_retry_after_timeout(initial) {
                Err(initial.duplicate())
            } else if runs.len() == 1 {
                return AbsoluteStep::Run { timeout_ms: timeout_retry_budget_ms(timeout_ms) };
            } else {
                match &runs[1] {
                    Ok(position) => Ok(*position),
                    Err(retry) => Err(merge_retry_timeout_errors(initial, retry)),
                }
            }
        },
    };
    match stopped {
        None => AbsoluteStep::Stop,
        Some(result) => AbsoluteStep::Done(finalize_with_best_effort_stop(channel, outcome, result)),
    }
}

// ---------------------------------------------------------------- stored state

/// What tells the stored state of one camera and channel from that of another.
pub open spec fn state_key_of(endpoint: Seq<char>, channel: u8) -> Seq<char> {
    key_component(endpoint) + ".ch"@ + dec(channel as nat)
}

/// The file that holds the stored state.
pub open spec fn state_path_of(env: EnvironmentModel, endpoint: Seq<char>, channel: u8) -> Seq<char> {
    path_below(calibration_dir_of(env), state_key_of(endpoint, channel) + ".ekf-count.json"@)
}

/// The key and the file of the stored state.
pub fn ekf_state_identity(env: &Environment, endpoint: &str, channel: u8) -> (r: (String, String))
    ensures
        r.0@ == state_key_of(endpoint@, channel),
        r.1@ == state_path_of(env@, endpoint@, channel),
{
    let endpoint_key = sanitize_key_component(endpoint);
    let state_key = join3(endpoint_key.as_str(), ".ch", dec_u64(channel as u64).as_str());
    let file_name = join2(state_key.as_str(), ".ekf-count.json");
    let dir = calibration_dir_from_env(env);
    let path = join_path(dir.as_str(), file_name.as_str());
    (state_key, path)
}

/// Stored state is used only where it was written by this version for the same camera and
/// channel, and all its numbers are finite.
pub fn accepts_stored_state(
    schema_version: u32,
    stored_channel: u8,
    stored_key: &str,
    all_finite: bool,
    channel: u8,
    state_key: &str,
) -> (r: bool)
    ensures
        r == (schema_version == EKF_STATE_SCHEMA_VERSION && stored_channel == channel && stored_key@
            == state_key@ && all_finite),
{
    schema_version == EKF_STATE_SCHEMA_VERSION && stored_channel == channel
        && crate::text::same_text(stored_key, state_key) && all_finite
}

/// The name of a file without what follows its last point, where a point stands after its
/// first character.
pub open spec fn stem_of(name: Seq<char>) -> Seq<char> {
    match last_index_of(name, '.') {
        Some(at) => if at > 0 {
            name.take(at)
        } else {
            name
        },
        None => name,
    }
}

/// The part of a path up to its last slash, with the slash.
pub open spec fn dir_part(path: Seq<char>) -> Seq<char> {
    match last_index_of(path, '/') {
        Some(at) => path.take(at + 1),
        None => Seq::empty(),
    }
}

/// The part of a path after its last slash.
pub open spec fn name_part(path: Seq<char>) -> Seq<char> {
    match last_index_of(path, '/') {
        Some(at) => path.skip(at + 1),
        None => path,
    }
}

/// The file of the stored state beside a calibration file.
pub open spec fn state_path_beside(calibration_path: Seq<char>, channel: u8) -> Seq<char> {
    let stem = stem_of(name_part(calibration_path));
    dir_part(calibration_path) + if stem.len() == 0 {
        "calibration"@
    } else {
        stem
    } + ".ch"@ + dec(channel as nat) + ".ekf.json"@
}

/// The file of the stored state beside a calibration file.
pub fn ekf_state_path_for_calibration(calibration_path: &str, channel: u8) -> (r: String)
    ensures
        r@ == state_path_beside(calibration_path@, channel),
{
    let chars = to_chars(calibration_path);
    let from: usize = match last_index_of_char(chars.as_slice(), '/') {
        Some(at) => at + 1,
        None => 0,
    };
    let name = vstd::slice::slice_subrange(chars.as_slice(), from, chars.len());
    let end: usize = match last_index_of_char(name, '.') {
        Some(at) => if at > 0 {
            at
        } else {
            name.len()
        },
        None => name.len(),
    };
    let dir = slice_text(chars.as_slice(), 0, from);
    let stem = if end == 0 {
        "calibration".to_owned()
    } else {
        slice_text(name, 0, end)
    };
    proof {
        assert(dir@ =~= dir_part(calibration_path@));
        assert(name@ =~= name_part(calibration_path@));
        assert(name@.subrange(0, end as int) =~= stem_of(name@));
    }
    let text = join3(dir.as_str(), stem.as_str(), ".ch");
    join3(text.as_str(), dec_u64(channel as u64).as_str(), ".ekf.json")
}

// ---------------------------------------------------------------- laws

/// The time for a second try stays between eighteen and thirty-six seconds, grows with the
/// time of the first, and between those bounds is three times as long.
pub proof fn law_retry_budget_is_bounded(shorter: int, longer: int)
    requires
        shorter <= longer,
    ensures
        18000 <= retry_budget(shorter) <= 36000,
        retry_budget(shorter) <= retry_budget(longer),
        6000 <= shorter <= 12000 ==> retry_budget(shorter) == 3 * shorter,
{
}

/// The slack never takes more than half of the time, rounded down, or a millisecond.
pub proof fn law_slack_is_bounded(base_timeout_ms: u64, raw_slack_ms: u64)
    ensures
        timeout_budget(base_timeout_ms, raw_slack_ms).applied_slack_ms <= raw_slack_ms,
        timeout_budget(base_timeout_ms, raw_slack_ms).applied_slack_ms
            <= ADAPTIVE_TIMEOUT_MAX_SLACK_MS,
        base_timeout_ms >= 2 ==> 2 * timeout_budget(base_timeout_ms, raw_slack_ms).applied_slack_ms
            <= base_timeout_ms,
        timeout_budget(base_timeout_ms, raw_slack_ms).effective_timeout_ms >= base_timeout_ms,
{
}

/// A movement that ran out of time is tried again.
pub proof fn law_timeouts_are_retried(
    effective_timeout_ms: u64,
    channel: u8,
    before: Seq<char>,
    counters: FailureModeCounters,
    after: Seq<char>,
)
    ensures
        is_timeout(timed_out(effective_timeout_ms, channel, before, counters, after)),
{
    let message = timed_out(effective_timeout_ms, channel, before, counters, after).message;
    assert(message.subrange(0, TIMEOUT_WORDS@.len() as int) =~= TIMEOUT_WORDS@);
    assert(occurs_at(message, TIMEOUT_WORDS@, 0));
}

/// The counters of a movement that ran out of time are read back from its error, where
/// what is said after them does not hold their beginning.
pub proof fn law_timeout_counters_read_back(
    effective_timeout_ms: u64,
    channel: u8,
    before: Seq<char>,
    counters: FailureModeCounters,
    after: Seq<char>,
)
    requires
        forall|i: int| !occurs_at(after, COUNTERS_START@, i),
    ensures
        counters_in(timed_out(effective_timeout_ms, channel, before, counters, after).message)
            == Some(counters),
{
    reveal_strlit(" failure_modes=");
    reveal_strlit("failure_modes=");
    reveal_strlit(" ");
    let head = timeout_head(effective_timeout_ms, channel, before);
    let message = timed_out(effective_timeout_ms, channel, before, counters, after).message;
    assert(message =~= head + "failure_modes="@ + counters_text(counters) + after);
    law_counters_read_back(head, counters, after);
}

/// What stands before the counters in the error of a movement that ran out of time.
pub open spec fn timeout_head(effective_timeout_ms: u64, channel: u8, before: Seq<char>) -> Seq<
    char,
> {
    TIMEOUT_WORDS@ + " after "@ + dec(effective_timeout_ms as nat) + "ms on channel "@ + dec(
        channel as nat,
    ) + ": "@ + before + " "@
}

/// A try to reach a target came to an error, or to a position for which the loop reported
/// success.
pub open spec fn is_try(
    outcome: Result<PtzRawPosition, ErrorModel>,
    target: (i64, i64),
    tolerance_count: i64,
) -> bool {
    outcome matches Ok(position) ==> exists|
        state: LoopState,
        evidence: LoopEvidence,
        current: PtzRawPosition,
    | #[trigger] reports(state, evidence, current, position) && best_is_measured(state, target)
        && evidence.target_pan_count == target.0 && evidence.target_tilt_count == target.1
        && evidence.tolerance_count == tolerance_count
}

/// The loop reports success for a position.
pub open spec fn reports(
    state: LoopState,
    evidence: LoopEvidence,
    current: PtzRawPosition,
    position: PtzRawPosition,
) -> bool {
    ||| verdict_of(state, evidence, current) == LoopVerdict::Reached(position)
    ||| verdict_of(state, evidence, current) == LoopVerdict::Latched(position)
}

/// Where moving to a target succeeds, the position that is given back is within the
/// tolerance on both axes.
pub proof fn law_success_is_within_the_tolerance(
    channel: u8,
    target: (i64, i64),
    tolerance_count: i64,
    timeout_ms: u64,
    runs: Seq<Result<PtzRawPosition, ErrorModel>>,
    stopped: Option<Result<(), ErrorModel>>,
    position: PtzRawPosition,
)
    requires
        forall|i: int| 0 <= i < runs.len() ==> is_try(#[trigger] runs[i], target, tolerance_count),
        absolute_step(channel, tolerance_count, timeout_ms, runs, stopped) == AbsoluteModel::Done(
            Ok::<_, ErrorModel>(position),
        ),
    ensures
        distance(target.0 as int, position.pan_count as int) <= tolerance_count,
        distance(target.1 as int, position.tilt_count as int) <= tolerance_count,
{
    let last = if runs[0] is Ok {
        runs[0]
    } else {
        runs[1]
    };
    assert(is_try(runs[0], target, tolerance_count));
    assert(runs.len() > 1 ==> is_try(runs[1], target, tolerance_count));
    assert(last == Ok::<_, ErrorModel>(position));
    let (state, evidence, current) = choose|
        state: LoopState,
        evidence: LoopEvidence,
        current: PtzRawPosition,
    | #[trigger] reports(state, evidence, current, position) && best_is_measured(state, target)
        && evidence.target_pan_count == target.0 && evidence.target_tilt_count == target.1
        && evidence.tolerance_count == tolerance_count;
    law_success_is_near_the_target(state, evidence, current, position);
}

/// No more than two tries are made: after two, the camera is told to stop, and after that
/// the operation is over.
pub proof fn law_two_tries_at_most(
    channel: u8,
    tolerance_count: i64,
    timeout_ms: u64,
    runs: Seq<Result<PtzRawPosition, ErrorModel>>,
    stopped: Option<Result<(), ErrorModel>>,
)
    ensures
        runs.len() >= 2 ==> !(absolute_step(
            channel,
            tolerance_count,
            timeout_ms,
            runs,
            stopped,
        ) is Run),
        runs.len() >= 2 && stopped is Some ==> absolute_step(
            channel,
            tolerance_count,
            timeout_ms,
            runs,
            stopped,
        ) is Done,
{
}

/// Whatever came of the tries, the camera is told to stop before the operation ends, unless
/// the input was refused.
pub proof fn law_camera_is_always_stopped(
    channel: u8,
    tolerance_count: i64,
    timeout_ms: u64,
    runs: Seq<Result<PtzRawPosition, ErrorModel>>,
)
    requires
        tolerance_count > 0,
        timeout_ms > 0,
    ensures
        !(absolute_step(channel, tolerance_count, timeout_ms, runs, None) is Done),
        runs.len() > 0 && runs[0] is Ok ==> absolute_step(
            channel,
            tolerance_count,
            timeout_ms,
            runs,
            None,
        ) is Stop,
{
}

} // verus!
