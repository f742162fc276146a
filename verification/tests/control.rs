use std::time::Duration;

use reocli::error::{AppError, AppResult, ErrorKind};
use reocli::interfaces::runtime::PtzBackend;
use reocli::model::{NumericRange, PtzDirection, PtzStatus};
use reocli::reolink::onvif::OnvifMoveStatus::{Idle, Moving, Unknown};
use reocli::reolink::onvif::{OnvifPtzConfigurationOptions, OnvifStatusFields};
use reocli::usecases::failure_modes::{
    dominant_failure_mode_label, format_failure_mode_counters, max_failure_mode_counters,
    parse_failure_mode_counters, FailureModeCounters,
};
use reocli::usecases::ptz_control_limits::{
    calibrated_success_tolerance, control_phase, control_pulse_ms_for_error,
    control_step_ms_for_error, edge_saturation_detected, measured_error,
    oscillation_damping_active, position_stable_threshold_count, risky_pushes, speed_cap_for_error, swing_between, tilt_edge_ahead,
    EdgePushContext,
};
use reocli::usecases::ptz_control_loop::{
    consider_best, control_axis_direction, forced_secondary_axis_command,
    pending_pulse_observation_for_command, pending_pulse_observation_for_lut_command,
    pulse_lut_learning_allowed, required_stable_steps_for_oscillation,
    select_command_with_edge_push_lockout, shape_pulse, stale_status_detected,
    update_reversal_counter, AxisDirection, BestObservedState, ControlAxis,
    DualAxisInterleaveState, EdgePushLockoutState, InterleaveReading, PulseContext, RiskyPushes,
    Swing,
};
use reocli::usecases::ptz_deadband::{
    axis_count_bounds, axis_nominal_bounds, axis_one_percent_threshold, classify_position_band,
    effective_deadband_hint, scale_directional_deadband, PositionBand,
};
use reocli::usecases::ptz_get_absolute_raw::{map_status_to_raw_position, PtzRawPosition};
use reocli::usecases::ptz_loop_state::{
    axis_swap_lag_detected, best_stagnation_near_miss_eligible, best_within_success_tolerance,
    narrow_tolerances, within_tolerance,
    stagnation_near_miss_latch_eligible, strict_axis_focus_command, success_latch_ready,
    success_latch_stagnation_ready, timeout_latch_eligible, LoopEvidence, LoopReading, LoopState,
    LoopVerdict, PushReading, StrictTolerances,
};
use reocli::usecases::ptz_set_absolute_raw::{
    accepts_stored_state, adaptive_timeout_budget, completion_min_age_ms,
    ekf_state_path_for_calibration, execute, format_transport_hint, merge_retry_timeout_errors,
    min_updates_for, parse_onvif_duration_ms, remaining_control_step_sleep_duration,
    should_force_cgi_for_onvif_options, should_force_cgi_pulse_transport,
    should_retry_after_timeout, timeout_blocker_label, timeout_error, timeout_retry_budget_ms,
    validate_inputs, AbsoluteStep,
};
use reocli::usecases::ptz_settle_gate::{
    capable_gate_allows_success, completion_gate_allows_success, CompletionGateCapabilities,
    PositionSettlingTracker,
};
use reocli::usecases::ptz_transport::{
    combine_moving_hint, dominant_error_count, map_onvif_move_status, motion_status_hint,
    relative_duration_for_count, relative_speed_for_count, supports_relative_move, MotionLog,
    TransportMotionHint, FINE_RELATIVE_MAX_DURATION_MS, FINE_RELATIVE_MIN_DURATION_MS,
};

// ---------------------------------------------------------------- settling

#[test]
fn tracker_accumulates_when_both_axes_are_within_threshold() {
    let mut tracker = PositionSettlingTracker::new();

    // Tenths of a count.
    tracker.observe(Some(10), Some(-8), 20);
    tracker.observe(Some(5), Some(4), 20);

    assert_eq!(tracker.stable_steps(), 2);
}

#[test]
fn tracker_resets_when_any_axis_exceeds_threshold() {
    let mut tracker = PositionSettlingTracker::new();

    tracker.observe(Some(5), Some(2), 10);
    tracker.observe(Some(15), Some(2), 10);

    assert_eq!(tracker.stable_steps(), 0);
    tracker.observe(Some(-20), Some(20), -20);
    assert_eq!(tracker.stable_steps(), 1);
    tracker.observe(Some(i128::MIN), Some(0), i128::MIN);
    assert_eq!(tracker.stable_steps(), 2);
    tracker.reset();
    assert_eq!(tracker.stable_steps(), 0);
}

#[test]
fn completion_gate_blocks_while_moving_or_unstable() {
    assert!(!completion_gate_allows_success(
        Some(true),
        Some(300),
        120,
        3,
        2,
    ));
    assert!(!completion_gate_allows_success(
        Some(false),
        Some(300),
        120,
        1,
        2,
    ));
}

#[test]
fn completion_gate_allows_stopped_with_sufficient_age() {
    assert!(completion_gate_allows_success(
        Some(false),
        Some(250),
        120,
        2,
        2,
    ));
}

#[test]
fn completion_gate_allows_stopped_without_age_when_stable() {
    assert!(completion_gate_allows_success(Some(false), None, 120, 2, 2));
}

#[test]
fn completion_gate_requires_age_when_moving_state_unknown() {
    assert!(!completion_gate_allows_success(None, None, 120, 3, 2));
    assert!(!completion_gate_allows_success(None, Some(80), 120, 3, 2));
    assert!(completion_gate_allows_success(None, Some(180), 120, 3, 2));
}

#[test]
fn completion_gate_respects_backend_motion_hint() {
    assert!(!capable_gate_allows_success(
        Some(true),
        Some(250),
        CompletionGateCapabilities::from_hint(Some(true), Some(250)),
        120,
        2,
        2,
        4,
    ));
    assert!(!capable_gate_allows_success(
        Some(false),
        Some(70),
        CompletionGateCapabilities::from_hint(Some(false), Some(70)),
        120,
        2,
        2,
        4,
    ));
    assert!(capable_gate_allows_success(
        Some(false),
        Some(260),
        CompletionGateCapabilities::from_hint(Some(false), Some(260)),
        120,
        2,
        2,
        4,
    ));
}

#[test]
fn completion_gate_partial_backend_hint_requires_more_stability() {
    assert!(!capable_gate_allows_success(
        Some(false),
        None,
        CompletionGateCapabilities::from_hint(Some(false), None),
        120,
        2,
        2,
        4,
    ));
    assert!(capable_gate_allows_success(
        Some(false),
        None,
        CompletionGateCapabilities::from_hint(Some(false), None),
        120,
        4,
        2,
        4,
    ));
    assert!(!capable_gate_allows_success(
        None,
        Some(260),
        CompletionGateCapabilities::from_hint(None, Some(260)),
        120,
        2,
        2,
        4,
    ));
    assert!(capable_gate_allows_success(
        None,
        Some(260),
        CompletionGateCapabilities::from_hint(None, Some(260)),
        120,
        4,
        2,
        4,
    ));
    assert!(capable_gate_allows_success(
        None,
        None,
        CompletionGateCapabilities::from_hint(None, None),
        120,
        4,
        2,
        4,
    ));
}

// ---------------------------------------------------------------- transport

#[test]
fn map_onvif_move_status_prioritizes_moving_over_other_states() {
    assert_eq!(map_onvif_move_status(Some(Moving), Some(Idle)), Some(true));
    assert_eq!(
        map_onvif_move_status(Some(Unknown), Some(Moving)),
        Some(true)
    );
}

#[test]
fn map_onvif_move_status_maps_idle_when_no_moving_exists() {
    assert_eq!(
        map_onvif_move_status(Some(Unknown), Some(Idle)),
        Some(false)
    );
    assert_eq!(map_onvif_move_status(Some(Idle), None), Some(false));
}

#[test]
fn map_onvif_move_status_returns_none_for_unknown_or_absent_only() {
    assert_eq!(map_onvif_move_status(Some(Unknown), None), None);
    assert_eq!(map_onvif_move_status(None, Some(Unknown)), None);
    assert_eq!(map_onvif_move_status(None, None), None);
}

#[test]
fn combine_moving_hint_truth_table() {
    let cases = [
        ((Some(true), Some(true)), Some(true)),
        ((Some(true), Some(false)), Some(true)),
        ((Some(true), None), Some(true)),
        ((Some(false), Some(true)), Some(true)),
        ((Some(false), Some(false)), Some(false)),
        ((Some(false), None), Some(false)),
        ((None, Some(true)), Some(true)),
        ((None, Some(false)), Some(false)),
        ((None, None), None),
    ];

    for ((primary, secondary), expected) in cases {
        assert_eq!(combine_moving_hint(primary, secondary), expected);
    }
}

#[test]
fn relative_speed_for_count_uses_threshold_boundaries() {
    let cases = [(0, 1), (20, 1), (21, 2), (45, 2), (46, 3), (80, 3), (81, 4)];

    for (error_count, expected_speed) in cases {
        assert_eq!(relative_speed_for_count(error_count), expected_speed);
    }
}

#[test]
fn relative_duration_for_count_clamps_to_min_and_max() {
    assert_eq!(
        relative_duration_for_count(0),
        FINE_RELATIVE_MIN_DURATION_MS
    );
    assert_eq!(
        relative_duration_for_count(i64::MAX),
        FINE_RELATIVE_MAX_DURATION_MS
    );
}

#[test]
fn relative_durations_are_eleven_tenths_of_the_count() {
    for count in -5i64..400 {
        let expected = ((count.max(1) as f64 * 1.1).round() as u64).clamp(16, 120);
        assert_eq!(relative_duration_for_count(count), expected);
    }
    assert_eq!(relative_duration_for_count(45), 50);
    assert_eq!(dominant_error_count(-7, 3), 7);
    assert_eq!(dominant_error_count(i64::MIN, 3), i64::MAX);
    assert_eq!(dominant_error_count(0, 0), 0);
}

#[test]
fn the_log_remembers_the_last_movement_of_a_channel() {
    let mut log = MotionLog::new();
    assert_eq!(log.cached_motion_status_hint(1, 1000), None);
    log.remember_motion(1, 1000, Some(300));
    log.remember_motion(2, 1000, None);
    assert_eq!(
        log.cached_motion_status_hint(1, 1200),
        Some(TransportMotionHint {
            moving: Some(true),
            move_age_ms: Some(200)
        })
    );
    assert_eq!(
        log.cached_motion_status_hint(1, 1480),
        Some(TransportMotionHint {
            moving: Some(false),
            move_age_ms: Some(480)
        })
    );
    assert_eq!(
        log.cached_motion_status_hint(2, 900),
        Some(TransportMotionHint {
            moving: None,
            move_age_ms: Some(0)
        })
    );
    log.remember_motion(1, 5000, Some(0));
    assert_eq!(
        log.cached_motion_status_hint(1, 5100),
        Some(TransportMotionHint {
            moving: Some(true),
            move_age_ms: Some(100)
        })
    );
}

#[test]
fn movements_are_noted_where_they_were_made() {
    let onvif = PtzBackend::OnvifContinuous;
    let gone = || AppError::new(ErrorKind::Network, "gone");
    let mut log = MotionLog::new();
    log.note_move(PtzBackend::Cgi, 1, 1000, Some(300), &Ok(()));
    log.note_move(onvif, 1, 1000, Some(300), &Err(gone()));
    log.note_stop(PtzBackend::Cgi, 1, 1000, &Ok(()));
    log.note_stop(onvif, 1, 1000, &Err(gone()));
    log.note_relative_move(PtzBackend::Cgi, 1, 1000, 10, 0, &Ok(true));
    log.note_relative_move(onvif, 1, 1000, 10, 0, &Ok(false));
    log.note_relative_move(onvif, 1, 1000, 0, 0, &Ok(true));
    log.note_relative_move(onvif, 1, 1000, 10, 0, &Err(gone()));
    assert_eq!(log.cached_motion_status_hint(1, 1100), None);
    let moving = |log: &MotionLog, channel, now| {
        log.cached_motion_status_hint(channel, now)
            .and_then(|hint| hint.moving)
    };
    log.note_move(onvif, 1, 1000, Some(300), &Ok(()));
    log.note_stop(onvif, 2, 1000, &Ok(()));
    log.note_relative_move(onvif, 3, 1000, -45, 2, &Ok(true));
    assert_eq!(moving(&log, 1, 1479), Some(true));
    assert_eq!(moving(&log, 1, 1480), Some(false));
    assert_eq!(moving(&log, 2, 1179), Some(true));
    assert_eq!(moving(&log, 2, 1180), Some(false));
    assert_eq!(moving(&log, 3, 1229), Some(true));
    assert_eq!(moving(&log, 3, 1230), Some(false));
}

#[test]
fn hints_combine_the_status_and_the_log() {
    let status = OnvifStatusFields {
        pan: None,
        tilt: None,
        zoom: None,
        pan_tilt_move_status: Some(Idle),
        zoom_move_status: None,
        utc_time: None,
    };
    let cached = TransportMotionHint {
        moving: Some(true),
        move_age_ms: Some(40),
    };
    assert_eq!(
        motion_status_hint(PtzBackend::Cgi, Some(status.clone()), Some(cached)),
        None
    );
    assert_eq!(
        motion_status_hint(PtzBackend::OnvifContinuous, Some(status.clone()), Some(cached)),
        Some(TransportMotionHint {
            moving: Some(true),
            move_age_ms: Some(40)
        })
    );
    assert_eq!(
        motion_status_hint(PtzBackend::OnvifContinuous, Some(status), None),
        Some(TransportMotionHint {
            moving: Some(false),
            move_age_ms: None
        })
    );
    assert_eq!(
        motion_status_hint(PtzBackend::OnvifContinuous, None, None),
        Some(TransportMotionHint {
            moving: None,
            move_age_ms: None
        })
    );
    assert!(supports_relative_move(PtzBackend::OnvifContinuous));
    assert!(!supports_relative_move(PtzBackend::Cgi));
}

// ---------------------------------------------------------------- failure modes

#[test]
fn failure_mode_counter_parsing_and_max_are_stable() {
    let parsed = parse_failure_mode_counters(
        "set_absolute_raw timeout ... failure_modes=(edge:7,model:3,axis_swap:0,stale:1)",
    )
    .expect("failure mode tuple should parse");
    assert_eq!(
        parsed,
        FailureModeCounters {
            edge_saturation_hits: 7,
            model_mismatch_hits: 3,
            axis_swap_lag_hits: 0,
            stale_status_hits: 1,
        }
    );
    assert_eq!(
        format_failure_mode_counters(parsed),
        "(edge:7,model:3,axis_swap:0,stale:1)"
    );

    let retry = FailureModeCounters {
        edge_saturation_hits: 5,
        model_mismatch_hits: 9,
        axis_swap_lag_hits: 2,
        stale_status_hits: 0,
    };
    let merged = max_failure_mode_counters(parsed, retry);
    assert_eq!(
        merged,
        FailureModeCounters {
            edge_saturation_hits: 7,
            model_mismatch_hits: 9,
            axis_swap_lag_hits: 2,
            stale_status_hits: 1,
        }
    );
    assert_eq!(dominant_failure_mode_label(merged), "model");
}

#[test]
fn counters_are_read_from_their_last_mention() {
    let message = "failure_modes=(edge:1,model:1,axis_swap:1,stale:1) failure_modes=( stale : 4 ,edge:1,model:2,axis_swap:3) end)";
    assert_eq!(
        parse_failure_mode_counters(message),
        Some(FailureModeCounters {
            edge_saturation_hits: 1,
            model_mismatch_hits: 2,
            axis_swap_lag_hits: 3,
            stale_status_hits: 4,
        })
    );
    for bad in [
        "nothing",
        "failure_modes=(edge:1,model:1,axis_swap:1,stale:1",
        "failure_modes=(edge:1,model:1,axis_swap:1)",
        "failure_modes=(edge:1,model:1,axis_swap:1,other:1)",
        "failure_modes=(edge:x,model:1,axis_swap:1,stale:1)",
        "failure_modes=(edge=1,model:1,axis_swap:1,stale:1)",
        "failure_modes=()",
    ] {
        assert_eq!(parse_failure_mode_counters(bad), None, "{bad}");
    }
}

#[test]
fn the_leading_counter_is_named() {
    let counters = |edge, model, axis_swap, stale| FailureModeCounters {
        edge_saturation_hits: edge,
        model_mismatch_hits: model,
        axis_swap_lag_hits: axis_swap,
        stale_status_hits: stale,
    };
    assert_eq!(dominant_failure_mode_label(counters(0, 0, 0, 0)), "none");
    assert_eq!(dominant_failure_mode_label(counters(3, 3, 0, 0)), "tie");
    assert_eq!(dominant_failure_mode_label(counters(3, 2, 0, 0)), "edge");
    assert_eq!(dominant_failure_mode_label(counters(0, 2, 5, 0)), "axis_swap");
    assert_eq!(dominant_failure_mode_label(counters(0, 2, 5, 9)), "stale");
}

// ---------------------------------------------------------------- retrying

#[test]
fn timeout_retry_budget_is_bounded_and_scaled() {
    assert_eq!(timeout_retry_budget_ms(9_000), 27_000);
    assert_eq!(timeout_retry_budget_ms(25_000), 36_000);
    assert_eq!(timeout_retry_budget_ms(60_000), 36_000);
    assert_eq!(timeout_retry_budget_ms(1), 18_000);
    assert_eq!(timeout_retry_budget_ms(u64::MAX), 36_000);
}

#[test]
fn should_retry_after_timeout_matches_timeout_errors_only() {
    let timeout_error = AppError::new(
        ErrorKind::UnexpectedResponse,
        "set_absolute_raw timeout after 25000ms",
    );
    assert!(should_retry_after_timeout(&timeout_error));

    let other_unexpected = AppError::new(ErrorKind::UnexpectedResponse, "other failure");
    assert!(!should_retry_after_timeout(&other_unexpected));

    let network = AppError::new(ErrorKind::Network, "set_absolute_raw timeout after 25000ms");
    assert!(!should_retry_after_timeout(&network));
}

fn counters(edge: u64, model: u64) -> FailureModeCounters {
    FailureModeCounters {
        edge_saturation_hits: edge,
        model_mismatch_hits: model,
        axis_swap_lag_hits: 0,
        stale_status_hits: 0,
    }
}

#[test]
fn the_error_of_a_timeout_holds_its_counters() {
    let error = timeout_error(25_000, 2, "target=(1,2)", counters(3, 1), " more");
    assert_eq!(
        error.message,
        "set_absolute_raw timeout after 25000ms on channel 2: target=(1,2) failure_modes=(edge:3,model:1,axis_swap:0,stale:0) more"
    );
    assert!(should_retry_after_timeout(&error));
    assert_eq!(
        parse_failure_mode_counters(&error.message),
        Some(counters(3, 1))
    );
}

#[test]
fn two_failed_tries_are_merged() {
    let initial = timeout_error(1_000, 0, "a", counters(3, 1), "");
    let retry = AppError::new(ErrorKind::Network, "gone");
    let merged = merge_retry_timeout_errors(&initial, &retry);
    assert_eq!(merged.kind, ErrorKind::Network);
    assert_eq!(
        merged.message,
        format!(
            "initial_timeout='{}'; retry_timeout='gone'; initial_failure_modes=(edge:3,model:1,axis_swap:0,stale:0); retry_failure_modes=(edge:0,model:0,axis_swap:0,stale:0); failure_modes_max=(edge:3,model:1,axis_swap:0,stale:0)",
            initial.message
        )
    );
}

fn pose() -> PtzRawPosition {
    PtzRawPosition {
        channel: 0,
        pan_count: 10,
        tilt_count: 20,
        zoom_count: Some(1),
        focus_count: None,
    }
}

#[test]
fn a_movement_is_tried_at_most_twice_and_then_stopped() {
    let ok: AppResult<()> = Ok(());
    assert!(matches!(
        execute(0, 10, 9_000, &[], None),
        AbsoluteStep::Run { timeout_ms: 9_000 }
    ));
    let timed_out = || Err(timeout_error(9_000, 0, "a", counters(1, 0), ""));
    assert!(matches!(
        execute(0, 10, 9_000, &[timed_out()], None),
        AbsoluteStep::Run { timeout_ms: 27_000 }
    ));
    let runs = [timed_out(), Ok(pose())];
    assert!(matches!(
        execute(0, 10, 9_000, &runs, None),
        AbsoluteStep::Stop
    ));
    match execute(0, 10, 9_000, &runs, Some(&ok)) {
        AbsoluteStep::Done(Ok(position)) => assert_eq!(position, pose()),
        _ => panic!("the movement should be done"),
    }
    let runs = [timed_out(), timed_out()];
    match execute(0, 10, 9_000, &runs, Some(&ok)) {
        AbsoluteStep::Done(Err(error)) => assert!(error
            .message
            .ends_with("failure_modes_max=(edge:1,model:0,axis_swap:0,stale:0)")),
        _ => panic!("the movement should fail"),
    }
    let runs = [Err(AppError::new(ErrorKind::Network, "gone"))];
    assert!(matches!(
        execute(0, 10, 9_000, &runs, None),
        AbsoluteStep::Stop
    ));
}

#[test]
fn a_stop_that_fails_is_told() {
    let failed: AppResult<()> = Err(AppError::new(ErrorKind::Network, "no answer"));
    match execute(4, 10, 9_000, &[Ok(pose())], Some(&failed)) {
        AbsoluteStep::Done(Err(error)) => {
            assert_eq!(error.kind, ErrorKind::UnexpectedResponse);
            assert_eq!(
                error.message,
                "set_absolute_raw completed but failed to send Stop on channel 4: no answer"
            );
        }
        _ => panic!("the movement should fail"),
    }
    let runs = [Err(AppError::new(ErrorKind::Authentication, "denied"))];
    match execute(4, 10, 9_000, &runs, Some(&failed)) {
        AbsoluteStep::Done(Err(error)) => {
            assert_eq!(error.kind, ErrorKind::Authentication);
            assert_eq!(
                error.message,
                "denied (also failed to send Stop on channel 4: no answer)"
            );
        }
        _ => panic!("the movement should fail"),
    }
}

#[test]
fn a_movement_needs_a_tolerance_and_time() {
    assert_eq!(
        validate_inputs(0, 1).expect_err("tolerance").message,
        "tolerance count must be greater than 0"
    );
    assert_eq!(
        validate_inputs(1, 0).expect_err("time").message,
        "timeout_ms must be greater than 0"
    );
    assert!(validate_inputs(1, 1).is_ok());
    match execute(0, -1, 9_000, &[], None) {
        AbsoluteStep::Done(Err(error)) => assert_eq!(error.kind, ErrorKind::InvalidInput),
        _ => panic!("the input should be refused"),
    }
}

#[test]
fn adaptive_timeout_budget_caps_variance_slack() {
    let budget = adaptive_timeout_budget(2_000, 2_100);
    assert!(budget.raw_slack_ms > budget.slack_cap_ms);
    assert_eq!(budget.applied_slack_ms, 1_000);
    assert_eq!(budget.effective_timeout_ms, 3_000);
    let budget = adaptive_timeout_budget(4_000, 375);
    assert_eq!(budget.applied_slack_ms, 375);
    assert_eq!(budget.effective_timeout_ms, 4_375);
    assert_eq!(adaptive_timeout_budget(1, 5).applied_slack_ms, 1);
    assert_eq!(adaptive_timeout_budget(60_000, 9_000).applied_slack_ms, 8_000);
    assert_eq!(min_updates_for(3_000), 2);
    assert_eq!(min_updates_for(2_999), 1);
    assert_eq!(completion_min_age_ms(true), 120);
    assert_eq!(completion_min_age_ms(false), 180);
}

fn remaining(step_budget_ms: u64, elapsed: Duration) -> Duration {
    let nanos = remaining_control_step_sleep_duration(step_budget_ms, elapsed.as_nanos());
    Duration::from_nanos(nanos as u64)
}

#[test]
fn remaining_control_step_sleep_duration_returns_only_budget_left() {
    assert_eq!(
        remaining(120, Duration::from_millis(35)),
        Duration::from_millis(85)
    );
    assert_eq!(remaining(120, Duration::from_millis(120)), Duration::ZERO);
}

#[test]
fn remaining_control_step_sleep_duration_saturates_at_zero_when_over_budget() {
    assert_eq!(remaining(120, Duration::from_millis(220)), Duration::ZERO);
}

// ---------------------------------------------------------------- durations

#[test]
fn parse_onvif_duration_ms_parses_seconds_and_fraction() {
    assert_eq!(parse_onvif_duration_ms("PT1S"), Some(1_000));
    assert_eq!(parse_onvif_duration_ms("PT0.5S"), Some(500));
    assert_eq!(parse_onvif_duration_ms("PT0S"), Some(0));
    assert_eq!(parse_onvif_duration_ms("P1DT1S"), None);
}

#[test]
fn durations_are_rounded_to_milliseconds() {
    for (raw, expected) in [
        (" PT1.2345S ", Some(1_235)),
        ("PT1.2344S", Some(1_234)),
        ("PT.25S", Some(250)),
        ("PT2.S", Some(2_000)),
        ("PT+3S", Some(3_000)),
        ("PT-0.00S", Some(0)),
        ("PT-1S", None),
        ("PTS", None),
        ("PT.S", None),
        ("PT1M", None),
        ("1S", None),
        ("PT1,5S", None),
        ("PT99999999999999999999S", Some(u64::MAX)),
        ("PT18446744073709551.615S", Some(u64::MAX)),
        ("PT18446744073709549.568S", Some(18_446_744_073_709_547_520)),
        ("PT0.99949999999999999999S", Some(1_000)),
        ("PT0.9994999999999999S", Some(1_000)),
        ("PT0.99949999S", Some(999)),
    ] {
        assert_eq!(parse_onvif_duration_ms(raw), expected, "{raw}");
    }
}

#[test]
fn durations_are_computed_with_doubles() {
    let mut texts: Vec<String> = Vec::new();
    for n in 0u64..160 {
        let scrambled = n.wrapping_mul(0x9E37_79B9_7F4A_7C15);
        texts.push(format!("{}.{:020}", n % 7, scrambled));
        texts.push(format!("{}e-{}", scrambled, n % 24));
        texts.push(format!("0.{:03}5", (n * 37) % 1000));
        texts.push(format!("{}.{:03}49999999999999999999", n, (n * 61) % 1000));
        texts.push(format!("{}e{}", scrambled, (n * 13) % 330));
        texts.push(format!("9007199254740993.{n}e-{}", n % 17));
    }
    for text in texts {
        let seconds = text.parse::<f64>().expect("number");
        let expected = if seconds.is_finite() {
            Some((seconds * 1_000.0).round() as u64)
        } else {
            None
        };
        assert_eq!(
            parse_onvif_duration_ms(&format!("PT{text}S")),
            expected,
            "{text}"
        );
    }
}

#[test]
fn durations_may_have_an_exponent() {
    for (raw, expected) in [
        ("PT1e3S", Some(1_000_000)),
        ("PT1.5E+1S", Some(15_000)),
        ("PT25e-1S", Some(2_500)),
        ("PT4e-4S", Some(0)),
        ("PT5e-4S", Some(1)),
        ("PT.0001e4S", Some(1_000)),
        ("PT0e999999999999999999999999999999S", Some(0)),
        ("PT-0e9S", Some(0)),
        ("PT7e-999999999999999999999999999999S", Some(0)),
        ("PT1e17S", Some(u64::MAX)),
        ("PT1e308S", Some(u64::MAX)),
        ("PT1e309S", None),
        ("PT1e999999999999999999999999999999S", None),
        ("PT1eS", None),
        ("PT1e+S", None),
        ("PTe3S", None),
        ("PT1e1.5S", None),
        ("PT1e2e3S", None),
        ("PT-1e0S", None),
        ("PTinfS", None),
        ("PTnanS", None),
    ] {
        assert_eq!(parse_onvif_duration_ms(raw), expected, "{raw}");
        let seconds = raw
            .strip_prefix("PT")
            .and_then(|value| value.strip_suffix('S'))
            .and_then(|value| value.parse::<f64>().ok())
            .filter(|value| value.is_finite() && *value >= 0.0);
        assert_eq!(
            seconds.map(|value| (value * 1_000.0).round() as u64),
            expected,
            "{raw}"
        );
    }
    // As little as this is a double, and less is not.
    assert_eq!(parse_onvif_duration_ms("PT-2.4e-324S"), Some(0));
    assert_eq!(parse_onvif_duration_ms("PT-2.5e-324S"), None);
    assert_eq!(parse_onvif_duration_ms("PT-1e-999S"), Some(0));
    // The least number that is too large for a float is 2^1024 - 2^970.
    let limit = "179769313486231580793728971405303415079934132710037826936173778980444968292764750946649017977587207096330286416692887910946555547851940402630657488671505820681908902000708383676273854845817711531764475730270069855571366959622842914819860834936475292719074168444365510704342711559699508093042880177904174497792";
    let below = "179769313486231580793728971405303415079934132710037826936173778980444968292764750946649017977587207096330286416692887910946555547851940402630657488671505820681908902000708383676273854845817711531764475730270069855571366959622842914819860834936475292719074168444365510704342711559699508093042880177904174497791";
    assert!(limit.parse::<f64>().expect("number").is_infinite());
    assert!(below.parse::<f64>().expect("number").is_finite());
    let ms = |digits: &str, exponent: &str| {
        parse_onvif_duration_ms(&format!("PT{digits}{exponent}S"))
    };
    assert_eq!(ms(limit, ""), None);
    assert_eq!(ms(below, ""), Some(u64::MAX));
    assert_eq!(ms(below, "9e-1"), Some(u64::MAX));
    assert_eq!(ms(limit, "00e-2"), None);
    assert_eq!(ms(below, "e1"), None);
    assert_eq!(ms(limit, "e-1"), Some(u64::MAX));
}

#[test]
fn should_force_cgi_for_onvif_options_when_relative_move_unavailable_and_timeout_floor_is_high() {
    let options = OnvifPtzConfigurationOptions {
        supports_continuous_pan_tilt_velocity: true,
        supports_relative_pan_tilt_translation: false,
        supports_relative_pan_tilt_speed: true,
        has_timeout_range: true,
        timeout_min: Some("PT1S".to_string()),
        timeout_max: Some("PT10S".to_string()),
    };
    assert!(should_force_cgi_for_onvif_options(Some(&options)));

    let relative_supported = OnvifPtzConfigurationOptions {
        supports_relative_pan_tilt_translation: true,
        ..options.clone()
    };
    assert!(!should_force_cgi_for_onvif_options(Some(
        &relative_supported
    )));

    let short_timeout = OnvifPtzConfigurationOptions {
        timeout_min: Some("PT0S".to_string()),
        ..options.clone()
    };
    assert!(!should_force_cgi_for_onvif_options(Some(&short_timeout)));
    assert!(!should_force_cgi_for_onvif_options(None));
    assert!(should_force_cgi_pulse_transport(
        PtzBackend::OnvifContinuous,
        Some(&options)
    ));
    assert!(!should_force_cgi_pulse_transport(
        PtzBackend::Cgi,
        Some(&options)
    ));
}

// ---------------------------------------------------------------- stored state

#[test]
fn ekf_state_path_uses_channel_suffix() {
    let state_path = ekf_state_path_for_calibration("/tmp/camera-key.json", 3);
    assert_eq!(state_path, "/tmp/camera-key.ch3.ekf.json");
}

#[test]
fn state_paths_stand_beside_their_calibration() {
    assert_eq!(
        ekf_state_path_for_calibration("plain", 0),
        "plain.ch0.ekf.json"
    );
    assert_eq!(
        ekf_state_path_for_calibration("/a.b/.hidden", 1),
        "/a.b/.hidden.ch1.ekf.json"
    );
    assert_eq!(
        ekf_state_path_for_calibration("", 1),
        "calibration.ch1.ekf.json"
    );
    assert!(accepts_stored_state(1, 2, "key", true, 2, "key"));
    assert!(!accepts_stored_state(2, 2, "key", true, 2, "key"));
    assert!(!accepts_stored_state(1, 3, "key", true, 2, "key"));
    assert!(!accepts_stored_state(1, 2, "other", true, 2, "key"));
    assert!(!accepts_stored_state(1, 2, "key", false, 2, "key"));
}

#[test]
fn hints_are_told_in_messages() {
    assert_eq!(format_transport_hint(None), "none");
    assert_eq!(
        format_transport_hint(Some(TransportMotionHint {
            moving: Some(true),
            move_age_ms: Some(12)
        })),
        "moving@12ms"
    );
    assert_eq!(
        format_transport_hint(Some(TransportMotionHint {
            moving: None,
            move_age_ms: None
        })),
        "unknown@n/a"
    );
}

// ---------------------------------------------------------------- pushes

#[test]
fn control_axis_direction_rejects_diagonal() {
    assert!(control_axis_direction(PtzDirection::LeftUp).is_none());
    assert!(control_axis_direction(PtzDirection::RightDown).is_none());
    assert_eq!(
        control_axis_direction(PtzDirection::Up),
        Some((ControlAxis::Tilt, AxisDirection::Positive))
    );
}

fn edge_context() -> EdgePushContext {
    EdgePushContext {
        pan_measure: 7_355,
        pan_min_count: 0,
        pan_max_count: 7_360,
        pan_error_measured: 300,
        pan_success_tenths: 1_200,
        tilt_measure: 620,
        tilt_min_count: 0,
        tilt_max_count: 1_240,
        tilt_error_measured: 0,
        tilt_success_tenths: 680,
    }
}

#[test]
fn edge_push_lockout_blocks_repeated_risky_push_and_releases() {
    let risky = risky_pushes(&edge_context());
    let mut lockout = EdgePushLockoutState::default();
    let mut push = || {
        select_command_with_edge_push_lockout(
            &mut lockout,
            Some(PtzDirection::Right),
            Some(PtzDirection::Right),
            None,
            risky,
        )
    };
    assert_eq!(push(), (Some(PtzDirection::Right), false));
    assert_eq!(push(), (None, true));
    assert_eq!(push(), (None, true));
    assert_eq!(push(), (None, true));
    assert_eq!(push(), (Some(PtzDirection::Right), false));
}

#[test]
fn edge_push_lockout_prefers_other_axis_when_available() {
    let context = EdgePushContext {
        tilt_error_measured: -180,
        ..edge_context()
    };
    let risky = risky_pushes(&context);
    let mut lockout = EdgePushLockoutState::default();
    let mut push = || {
        select_command_with_edge_push_lockout(
            &mut lockout,
            Some(PtzDirection::Right),
            Some(PtzDirection::Right),
            Some(PtzDirection::Down),
            risky,
        )
    };
    let _ = push();
    assert_eq!(push(), (Some(PtzDirection::Down), true));
}

#[test]
fn a_safe_push_frees_its_direction() {
    let safe = RiskyPushes {
        left: false,
        right: false,
        up: false,
        down: false,
    };
    let risky = RiskyPushes { left: true, ..safe };
    let mut lockout = EdgePushLockoutState::default();
    let mut push = |risky| {
        select_command_with_edge_push_lockout(
            &mut lockout,
            Some(PtzDirection::Left),
            None,
            None,
            risky,
        )
    };
    assert_eq!(push(risky), (Some(PtzDirection::Left), false));
    assert_eq!(push(risky), (None, true));
    assert_eq!(push(safe), (Some(PtzDirection::Left), false));
    assert_eq!(push(risky), (Some(PtzDirection::Left), false));
}

#[test]
fn failure_mode_helpers_detect_expected_patterns() {
    let mut stale = 0;
    assert!(!stale_status_detected(true, true, &mut stale));
    assert!(stale_status_detected(true, true, &mut stale));
    assert!(!stale_status_detected(false, true, &mut stale));
    assert_eq!(stale, 0);

    assert!(axis_swap_lag_detected(
        PtzDirection::Up,
        Some(ControlAxis::Pan)
    ));
    assert!(!axis_swap_lag_detected(
        PtzDirection::Up,
        Some(ControlAxis::Tilt)
    ));
    assert!(!axis_swap_lag_detected(PtzDirection::Up, None));

    assert!(edge_saturation_detected(
        PtzDirection::Up,
        &EdgePushContext {
            pan_measure: 7_000,
            pan_min_count: 0,
            pan_max_count: 7_360,
            pan_error_measured: 0,
            pan_success_tenths: 730,
            tilt_measure: 1_235,
            tilt_min_count: 0,
            tilt_max_count: 1_240,
            tilt_error_measured: 40,
            tilt_success_tenths: 120,
        }
    ));
    assert!(!edge_saturation_detected(
        PtzDirection::Right,
        &EdgePushContext {
            pan_measure: 2_000,
            pan_min_count: 0,
            pan_max_count: 7_360,
            pan_error_measured: 40,
            pan_success_tenths: 730,
            tilt_measure: 600,
            tilt_min_count: 0,
            tilt_max_count: 1_240,
            tilt_error_measured: 0,
            tilt_success_tenths: 120,
        }
    ));
}

#[test]
fn the_other_axis_gets_its_turn() {
    let mut state = DualAxisInterleaveState::default();
    let reading = InterleaveReading {
        dominant: ControlAxis::Tilt,
        secondary_within: false,
        interval: 1,
        secondary_push: Some(PtzDirection::Left),
    };
    let mut pushes = Vec::new();
    for _ in 0..4 {
        pushes.push(forced_secondary_axis_command(&mut state, Some(reading)));
    }
    assert_eq!(
        pushes,
        vec![None, Some(PtzDirection::Left), None, Some(PtzDirection::Left)]
    );
    assert_eq!(forced_secondary_axis_command(&mut state, None), None);
    assert_eq!(state, DualAxisInterleaveState::default());
    let other = InterleaveReading {
        dominant: ControlAxis::Pan,
        interval: 0,
        ..reading
    };
    assert_eq!(
        forced_secondary_axis_command(&mut state, Some(other)),
        Some(PtzDirection::Left)
    );
    let within = InterleaveReading {
        secondary_within: true,
        ..other
    };
    assert_eq!(forced_secondary_axis_command(&mut state, Some(within)), None);
}

/// What two errors on axes of 7360 and 1240 counts mean for whose turn it is, with a
/// tolerance of twelve counts on both axes and the usual strict limits.
fn turns(pan_error: f64, tilt_error: f64, success: (f64, f64)) -> Option<InterleaveReading> {
    let (tolerance, strict) = (12.0, (50.0, 24.0));
    if pan_error.abs() <= tolerance || tilt_error.abs() <= tolerance {
        return None;
    }
    let priority = |error: f64, span: f64, success: f64| {
        (error.abs() / span).max(error.abs() / success)
    };
    let pan = priority(pan_error, 7_360.0, success.0);
    let tilt = priority(tilt_error, 1_240.0, success.1);
    let endgame = pan_error.abs().max(tilt_error.abs()) <= 420.0;
    let limit = |success: f64, strict: f64| if endgame { success.min(strict) } else { success };
    let ratio = pan.max(tilt) / pan.min(tilt);
    let interval = if ratio <= 1.25 {
        1
    } else if ratio <= 1.8 {
        2
    } else {
        3
    };
    let (dominant, secondary_within, secondary_push) = if pan >= tilt {
        (
            ControlAxis::Pan,
            tilt_error.abs() <= limit(success.1, strict.1),
            if tilt_error > 0.0 { PtzDirection::Up } else { PtzDirection::Down },
        )
    } else {
        (
            ControlAxis::Tilt,
            pan_error.abs() <= limit(success.0, strict.0),
            if pan_error > 0.0 { PtzDirection::Right } else { PtzDirection::Left },
        )
    };
    Some(InterleaveReading {
        dominant,
        secondary_within,
        interval,
        secondary_push: Some(secondary_push),
    })
}

#[test]
fn forced_secondary_axis_command_alternates_for_balanced_dual_axis_error() {
    let mut state = DualAxisInterleaveState::default();
    let mut directions = Vec::new();
    for _ in 0..4 {
        let reading = turns(-180.0, 120.0, (120.0, 68.0));
        directions.push(forced_secondary_axis_command(&mut state, reading));
    }

    assert_eq!(directions[0], None);
    assert_eq!(directions[1], Some(PtzDirection::Left));
    assert_eq!(directions[2], None);
    assert_eq!(directions[3], Some(PtzDirection::Left));

    let reset = forced_secondary_axis_command(&mut state, turns(-80.0, 0.0, (120.0, 68.0)));
    assert_eq!(reset, None);
    let first_after_reset =
        forced_secondary_axis_command(&mut state, turns(-400.0, 200.0, (120.0, 68.0)));
    assert_eq!(first_after_reset, None);
}

#[test]
fn forced_secondary_axis_command_does_not_starve_pan_near_target() {
    let mut state = DualAxisInterleaveState::default();
    let mut forced_pan = 0usize;
    for _ in 0..8 {
        let reading = turns(145.0, -125.0, (120.0, 68.0));
        let forced = forced_secondary_axis_command(&mut state, reading);
        if matches!(forced, Some(PtzDirection::Right)) {
            forced_pan = forced_pan.saturating_add(1);
        }
    }
    assert!(forced_pan >= 2);
}

#[test]
fn forced_secondary_axis_command_uses_strict_threshold_in_endgame() {
    let mut state = DualAxisInterleaveState::default();
    let mut forced = None;
    for _ in 0..3 {
        forced = forced_secondary_axis_command(&mut state, turns(80.0, 30.0, (120.0, 60.0)));
    }
    assert_eq!(forced, Some(PtzDirection::Up));
}

#[test]
fn learning_needs_a_pulse_and_no_reversal() {
    assert!(pulse_lut_learning_allowed(PtzDirection::Left, true, 10, false, true));
    assert!(!pulse_lut_learning_allowed(PtzDirection::Left, true, 9, false, false));
    assert!(!pulse_lut_learning_allowed(PtzDirection::Left, true, 10, true, false));
    assert!(!pulse_lut_learning_allowed(PtzDirection::Up, true, 10, false, true));
    assert!(!pulse_lut_learning_allowed(PtzDirection::LeftUp, true, 10, false, false));
    assert!(!pulse_lut_learning_allowed(PtzDirection::Up, false, 10, false, false));
    let pending = pending_pulse_observation_for_command(PtzDirection::Right, 40).expect("pending");
    assert_eq!(
        (pending.axis, pending.direction, pending.pulse_ms, pending.edge_band),
        (ControlAxis::Pan, AxisDirection::Positive, 40, false)
    );
    assert_eq!(pending_pulse_observation_for_command(PtzDirection::Right, 0), None);
    assert_eq!(
        pending_pulse_observation_for_lut_command(PtzDirection::Right, 40, true, false),
        None
    );
    assert!(
        pending_pulse_observation_for_lut_command(PtzDirection::Right, 40, true, true)
            .expect("pending")
            .edge_band
    );
}

fn calm() -> PulseContext {
    PulseContext {
        near_target: false,
        tilt_micro_error: false,
        tilt_edge_ahead: false,
        within_damping_band: false,
        pan_reversal_now: false,
        pan_error_small: false,
        tilt_reversal_now: false,
        tilt_error_small: false,
        beyond_strict_tolerance: false,
    }
}

#[test]
fn near_target_speed1_pulse_ms_clamps_to_guard_band() {
    let near = PulseContext {
        near_target: true,
        ..calm()
    };
    let shaped = |base, direction, context| shape_pulse(direction, 3, base, context, 0, 0);
    assert_eq!(shaped(0, PtzDirection::Right, near), (1, 0));
    assert_eq!(shaped(24, PtzDirection::Right, near), (1, 24));
    assert_eq!(shaped(90, PtzDirection::Right, near), (1, 45));
    let micro = PulseContext {
        tilt_micro_error: true,
        ..near
    };
    assert_eq!(shaped(24, PtzDirection::Down, micro), (1, 0));
    assert_eq!(shaped(24, PtzDirection::Right, micro), (1, 24));
}

#[test]
fn ensure_active_command_pulse_ms_restores_zero_pulse_outside_strict_band() {
    let beyond = PulseContext {
        beyond_strict_tolerance: true,
        ..calm()
    };
    assert_eq!(shape_pulse(PtzDirection::Down, 3, 0, beyond, 0, 0), (3, 8));
    assert_eq!(shape_pulse(PtzDirection::Right, 3, 0, calm(), 0, 0), (3, 0));
    assert_eq!(shape_pulse(PtzDirection::Down, 3, 18, beyond, 0, 0), (3, 18));
}

#[test]
fn clamp_tilt_edge_control_limits_edge_risk_only() {
    let at = |measure| EdgePushContext {
        tilt_measure: measure,
        ..edge_context()
    };
    let shaped = |direction, speed, pulse_ms, measure| {
        let context = PulseContext {
            tilt_edge_ahead: tilt_edge_ahead(direction, &at(measure)),
            ..calm()
        };
        shape_pulse(direction, speed, pulse_ms, context, 0, 0)
    };
    assert_eq!(shaped(PtzDirection::Up, 4, 90, 1_230), (1, 20));
    assert_eq!(shaped(PtzDirection::Down, 3, 80, 5), (1, 20));
    assert_eq!(shaped(PtzDirection::Down, 3, 80, 600), (3, 80));
    assert_eq!(shaped(PtzDirection::Right, 4, 90, 1_230), (4, 90));
}

#[test]
fn clamp_pan_reversal_micro_control_restricts_pan_after_reversal() {
    let shaped = |direction, reversal, error: i64| {
        let context = PulseContext {
            pan_reversal_now: reversal,
            pan_error_small: error.abs() <= 200,
            ..calm()
        };
        shape_pulse(direction, 3, 45, context, 0, 0)
    };
    assert_eq!(shaped(PtzDirection::Right, true, 180), (1, 10));
    assert_eq!(shaped(PtzDirection::Up, true, 180), (3, 45));
    assert_eq!(shaped(PtzDirection::Left, true, 260), (3, 45));
    assert_eq!(shaped(PtzDirection::Left, false, 180), (3, 45));
}

#[test]
fn clamp_tilt_reversal_micro_control_restricts_tilt_after_reversal() {
    let shaped = |direction, small| {
        let context = PulseContext {
            tilt_reversal_now: true,
            tilt_error_small: small,
            ..calm()
        };
        shape_pulse(direction, 3, 45, context, 0, 0)
    };
    assert_eq!(shaped(PtzDirection::Down, true), (1, 10));
    assert_eq!(shaped(PtzDirection::Right, true), (3, 45));
    assert_eq!(shaped(PtzDirection::Up, false), (3, 45));
}

#[test]
fn oscillation_damping_active_only_near_success_band_and_after_reversals() {
    assert!(oscillation_damping_active(2, 1, 320, -180, 1_200, 680));
    assert!(!oscillation_damping_active(1, 1, 320, -180, 1_200, 680));
    assert!(!oscillation_damping_active(3, 1, 500, -180, 1_200, 680));
    let damped = PulseContext {
        within_damping_band: true,
        ..calm()
    };
    assert_eq!(shape_pulse(PtzDirection::Left, 4, 90, damped, 2, 1), (1, 20));
    assert_eq!(shape_pulse(PtzDirection::Left, 4, 90, damped, 1, 1), (4, 90));
}

#[test]
fn update_reversal_counter_detects_near_target_sign_flips() {
    let mut counter = 0;
    let mut previous = None;
    for (error, expected) in [(140, 0), (-130, 1), (800, 0)] {
        update_reversal_counter(&mut counter, swing_between(previous, error, 50, 1_200));
        previous = Some(error);
        assert_eq!(counter, expected);
    }
    assert_eq!(swing_between(Some(140), 30, 50, 1_200), Swing::Calm);
    assert_eq!(swing_between(Some(140), -131, 50, 0), Swing::Reversed);
}

#[test]
fn required_stable_steps_reduces_when_oscillation_is_high() {
    assert_eq!(required_stable_steps_for_oscillation(0, 0), 2);
    assert_eq!(required_stable_steps_for_oscillation(2, 3), 2);
    assert_eq!(required_stable_steps_for_oscillation(4, 2), 1);
}

#[test]
fn control_pulse_ms_uses_micro_pulses_near_target() {
    assert_eq!(control_pulse_ms_for_error(80), 0);
    assert_eq!(control_pulse_ms_for_error(150), 20);
    assert_eq!(control_pulse_ms_for_error(300), 35);
    assert_eq!(speed_cap_for_error(180), 1);
    assert_eq!(speed_cap_for_error(181), 2);
    assert_eq!(speed_cap_for_error(9_000), 8);
}

#[test]
fn control_step_ms_is_compact_for_closed_loop_updates() {
    assert_eq!(control_step_ms_for_error(80), 140);
    assert_eq!(control_step_ms_for_error(150), 130);
    assert_eq!(control_step_ms_for_error(300), 120);
    assert_eq!(control_step_ms_for_error(800), 110);
    assert_eq!(control_step_ms_for_error(2_000), 130);
}

#[test]
fn phases_depend_on_the_distance() {
    let near = control_phase(false, 300, -400, 0);
    assert!(near.near_target && !near.learned_pulses && !near.fine);
    let learned = control_phase(false, 300, -360, 9);
    assert!(learned.near_target && learned.learned_pulses);
    let fine = control_phase(true, measured_error(240, 0), 0, 0);
    assert!(fine.fine && !fine.near_target);
    assert!(!control_phase(true, 240, 0, 1).fine);
    assert_eq!(measured_error(i64::MIN, i64::MAX), i64::MIN as i128 - i64::MAX as i128);
}

#[test]
fn calibrated_success_tolerance_respects_deadband_floor_and_cap() {
    assert_eq!(calibrated_success_tolerance(73, 240, 12), 730);
    assert_eq!(calibrated_success_tolerance(12, 62, 12), 600);
    assert_eq!(calibrated_success_tolerance(12, 0, 12), 120);
    assert_eq!(calibrated_success_tolerance(12, 20, 12), 236);
    assert_eq!(calibrated_success_tolerance(0, 0, 12), 10);
}

// ---------------------------------------------------------------- axes

#[test]
fn classify_position_band_splits_low_mid_high() {
    assert_eq!(classify_position_band(5, 0, 100), PositionBand::Low);
    assert_eq!(classify_position_band(50, 0, 100), PositionBand::Mid);
    assert_eq!(classify_position_band(95, 0, 100), PositionBand::High);
    assert_eq!(classify_position_band(20, 0, 100), PositionBand::Low);
    assert_eq!(classify_position_band(21, 0, 100), PositionBand::Mid);
    assert_eq!(classify_position_band(80, 0, 100), PositionBand::High);
}

#[test]
fn classify_position_band_handles_reversed_or_invalid_bounds() {
    assert_eq!(classify_position_band(5, 100, 0), PositionBand::Low);
    assert_eq!(classify_position_band(10, 10, 10), PositionBand::Mid);
}

#[test]
fn axis_count_bounds_maps_range_and_applies_margin() {
    let range = NumericRange {
        min: -1000,
        max: 2000,
    };
    let (min_count, max_count) = axis_count_bounds(Some(range), None, 3000, -3000, 3000);
    assert_eq!(min_count, -1120);
    assert_eq!(max_count, 3120);
    assert_eq!(
        axis_nominal_bounds(Some(range), Some((10, -10)), 0, 1),
        (-10, 10)
    );
    assert_eq!(axis_nominal_bounds(Some(range), Some((4, 4)), 0, 7360), (0, 7360));
    assert_eq!(axis_nominal_bounds(None, None, 7360, 0), (0, 7360));
}

#[test]
fn one_percent_thresholds_are_rounded_down() {
    assert_eq!(axis_one_percent_threshold(7360), 73);
    assert_eq!(axis_one_percent_threshold(1240), 12);
    assert_eq!(axis_one_percent_threshold(3), 1);
    assert_eq!(effective_deadband_hint(-12), 12);
    assert_eq!(effective_deadband_hint(0), 1);
    assert_eq!(effective_deadband_hint(i64::MIN), 200);
}

#[test]
fn raw_positions_need_both_axes() {
    let error = map_status_to_raw_position(&PtzStatus::blank(2)).expect_err("no pan");
    assert_eq!(error.message, "PTZ status missing pan count for channel 2");
    let status = PtzStatus {
        pan_position: Some(4),
        ..PtzStatus::blank(2)
    };
    let error = map_status_to_raw_position(&status).expect_err("no tilt");
    assert_eq!(error.message, "PTZ status missing tilt count for channel 2");
    let status = PtzStatus {
        tilt_position: Some(5),
        zoom_position: Some(6),
        ..status
    };
    assert_eq!(
        map_status_to_raw_position(&status).expect("position"),
        PtzRawPosition {
            channel: 2,
            pan_count: 4,
            tilt_count: 5,
            zoom_count: Some(6),
            focus_count: None
        }
    );
}

// ---------------------------------------------------------------- the loop

fn off_by(pan_abs_error: u64, tilt_abs_error: u64) -> BestObservedState {
    BestObservedState {
        pan_count: 0,
        tilt_count: 0,
        pan_abs_error,
        tilt_abs_error,
    }
}

fn tolerances(pan_count: u64, tilt_count: u64) -> StrictTolerances {
    StrictTolerances {
        pan_count,
        tilt_count,
    }
}

#[test]
fn success_latch_helpers_gate_by_age_and_motion() {
    let idle = Some(TransportMotionHint {
        moving: Some(false),
        move_age_ms: Some(300),
    });
    let moving = Some(TransportMotionHint {
        moving: Some(true),
        move_age_ms: Some(10),
    });
    let small = |norm: f64| norm <= 0.04;
    assert!(success_latch_ready(1, small(0.02), idle));
    assert!(!success_latch_ready(1, small(0.005), moving));
    assert!(success_latch_ready(0, small(0.01), idle));
    assert!(!success_latch_ready(0, small(0.08), idle));
    assert!(success_latch_stagnation_ready(6, idle));
    assert!(!success_latch_stagnation_ready(5, idle));
    assert!(!success_latch_stagnation_ready(10, moving));

    let best = BestObservedState {
        pan_count: 100,
        tilt_count: 20,
        pan_abs_error: 15,
        tilt_abs_error: 8,
    };
    assert!(best_within_success_tolerance(&best, tolerances(20, 10)));
    assert!(!best_within_success_tolerance(&best, tolerances(14, 10)));
    assert_eq!(
        timeout_blocker_label(false, false, true, false),
        "latch_gate"
    );
    assert_eq!(
        timeout_blocker_label(true, false, true, true),
        "completion_gate"
    );
    assert_eq!(
        timeout_blocker_label(false, true, false, false),
        "residual_error"
    );
    assert_eq!(timeout_blocker_label(true, true, false, false), "unknown");
}

#[test]
fn stagnation_near_miss_latch_requires_unknown_backend_hint_and_stagnation() {
    let hint = |moving, age_ms| {
        Some(TransportMotionHint {
            moving,
            move_age_ms: Some(age_ms),
        })
    };
    let best = off_by(54, 20);
    let strict = tolerances(50, 24);
    assert!(stagnation_near_miss_latch_eligible(&best, strict, true, None));
    assert!(stagnation_near_miss_latch_eligible(&best, strict, true, hint(None, 180)));
    assert!(!stagnation_near_miss_latch_eligible(&best, strict, true, hint(Some(false), 180)));
    assert!(!stagnation_near_miss_latch_eligible(&best, strict, true, hint(Some(true), 40)));
    assert!(!stagnation_near_miss_latch_eligible(&best, strict, false, None));
}

#[test]
fn timeout_latch_eligible_allows_conservative_near_miss_path() {
    let best = off_by(54, 20);
    let strict = tolerances(50, 24);
    let near_miss = stagnation_near_miss_latch_eligible(&best, strict, true, None);
    assert!(near_miss);
    assert!(timeout_latch_eligible(0, false, false, true, near_miss, None));

    let stopped = Some(TransportMotionHint {
        moving: Some(false),
        move_age_ms: Some(180),
    });
    let known_near_miss = stagnation_near_miss_latch_eligible(&best, strict, true, stopped);
    assert!(!known_near_miss);
    assert!(!timeout_latch_eligible(
        0,
        false,
        false,
        true,
        known_near_miss,
        stopped
    ));
}

#[test]
fn best_stagnation_near_miss_allows_single_axis_small_overrun_only() {
    let strict = tolerances(120, 68);
    assert!(best_stagnation_near_miss_eligible(&off_by(125, 30), strict, 8));
    assert!(!best_stagnation_near_miss_eligible(&off_by(130, 90), strict, 8));
    assert!(!best_stagnation_near_miss_eligible(&off_by(136, 20), strict, 8));
    assert!(best_stagnation_near_miss_eligible(&off_by(20, 76), strict, 8));
    assert!(!best_stagnation_near_miss_eligible(&off_by(20, 68), strict, 8));
}

#[test]
fn strict_axis_focus_command_prefers_remaining_axis_when_other_is_within_strict() {
    let strict = tolerances(50, 24);
    assert_eq!(strict_axis_focus_command(40, 30, strict), Some(PtzDirection::Up));
    assert_eq!(strict_axis_focus_command(-70, 20, strict), Some(PtzDirection::Left));
    assert_eq!(strict_axis_focus_command(70, 30, strict), None);
    assert_eq!(strict_axis_focus_command(-50, -25, strict), Some(PtzDirection::Down));
    assert_eq!(strict_axis_focus_command(51, 0, strict), Some(PtzDirection::Right));
}

#[test]
fn position_stable_threshold_accounts_for_deadband() {
    let threshold = position_stable_threshold_count(10, 180, 20);
    assert!(threshold >= 1_000);
    assert!(threshold <= 2_400);
    assert_eq!(threshold, 2_160);
    assert_eq!(position_stable_threshold_count(10, 0, 0), 350);
    assert_eq!(position_stable_threshold_count(1, 0, 0), 200);
    assert_eq!(position_stable_threshold_count(i64::MAX, 0, 0), 2_400);
}

#[test]
fn scale_directional_deadband_boosts_edges_only() {
    let center = scale_directional_deadband(100, 50, 0, 100);
    let edge = scale_directional_deadband(100, 95, 0, 100);
    assert_eq!(center, 10_000);
    assert_eq!(edge, 11_800);
}

#[test]
fn scale_directional_deadband_returns_zero_for_non_positive_input() {
    assert_eq!(scale_directional_deadband(-1, 50, 0, 100), 0);
    assert_eq!(scale_directional_deadband(0, 50, 0, 100), 0);
}

#[test]
fn the_best_position_never_gets_worse() {
    let mut best = None;
    assert!(consider_best(&mut best, 0, 0, 100, 50));
    assert!(!consider_best(&mut best, 0, 10, 100, 50) || best.expect("best").tilt_abs_error == 40);
    assert!(consider_best(&mut best, 60, 50, 100, 50));
    assert!(!consider_best(&mut best, 200, 50, 100, 50));
    assert_eq!(
        best,
        Some(BestObservedState {
            pan_count: 60,
            tilt_count: 50,
            pan_abs_error: 40,
            tilt_abs_error: 0
        })
    );
    assert!(!consider_best(&mut best, i64::MIN, i64::MAX, i64::MAX, i64::MIN));
}

fn reading(pan: i64, tilt: i64) -> LoopReading {
    LoopReading {
        pan_count: pan,
        tilt_count: tilt,
        target_pan_count: 100,
        target_tilt_count: 50,
        pan_swing: Swing::Calm,
        tilt_swing: Swing::Calm,
        model_mismatch: false,
        commanded: false,
        stationary: false,
        strict: tolerances(5, 5),
        tolerance_count: 100,
    }
}

fn evidence(settling_steps: usize) -> LoopEvidence {
    LoopEvidence {
        target_pan_count: 100,
        target_tilt_count: 50,
        strict: tolerances(5, 5),
        tolerance_count: 100,
        settling_steps,
        hint: None,
        min_age_ms: 180,
        min_updates: 2,
        error_is_small: false,
        deadline_passed: false,
    }
}

fn at(pan: i64, tilt: i64) -> PtzRawPosition {
    PtzRawPosition {
        channel: 0,
        pan_count: pan,
        tilt_count: tilt,
        zoom_count: Some(9),
        focus_count: None,
    }
}

#[test]
fn the_target_is_reached_after_good_readings_in_a_row() {
    let mut state = LoopState::new();
    state.observe(reading(99, 50));
    assert_eq!(
        state.judge(evidence(2), at(99, 50)),
        LoopVerdict::Continue
    );
    assert_eq!(state.stable_steps, 0);
    state.observe(reading(99, 50));
    assert_eq!(
        state.judge(evidence(2), at(99, 50)),
        LoopVerdict::Continue
    );
    state.observe(reading(99, 50));
    assert_eq!(
        state.judge(evidence(2), at(99, 50)),
        LoopVerdict::Reached(at(99, 50))
    );
}

#[test]
fn the_tolerance_that_was_asked_for_binds_success() {
    let mut asked = evidence(4);
    asked.strict = tolerances(50, 24);
    asked.tolerance_count = 10;
    let mut seen = reading(60, 50);
    seen.strict = tolerances(50, 24);
    seen.tolerance_count = 10;
    let mut state = LoopState::new();
    for _ in 0..9 {
        state.observe(seen);
        assert_eq!(state.judge(asked, at(60, 50)), LoopVerdict::Continue);
    }
    assert_eq!(state.stable_steps, 0);
    asked.deadline_passed = true;
    assert!(matches!(
        state.judge(asked, at(60, 50)),
        LoopVerdict::TimedOut { .. }
    ));
    asked.deadline_passed = false;
    asked.tolerance_count = 40;
    assert_eq!(
        state.judge(asked, at(60, 50)),
        LoopVerdict::Latched(at(60, 50))
    );
    assert_eq!(narrow_tolerances(tolerances(50, 24), 30), tolerances(30, 24));
    assert_eq!(narrow_tolerances(tolerances(50, 24), -1), tolerances(0, 0));
    assert!(within_tolerance(&off_by(10, 3), 10));
    assert!(!within_tolerance(&off_by(10, 11), 10));
}

#[test]
fn a_reading_off_the_target_starts_over() {
    let mut state = LoopState::new();
    for _ in 0..2 {
        state.observe(reading(99, 50));
        state.judge(evidence(2), at(99, 50));
    }
    assert_eq!(state.stable_steps, 1);
    state.observe(reading(300, 50));
    assert_eq!(
        state.judge(evidence(2), at(300, 50)),
        LoopVerdict::Continue
    );
    assert_eq!(state.stable_steps, 0);
    assert_eq!(state.grace_steps, 0);
}

#[test]
fn the_best_position_is_taken_when_it_stagnates() {
    let mut state = LoopState::new();
    state.observe(reading(99, 50));
    for _ in 0..6 {
        state.observe(reading(180, 50));
    }
    let mut seen = evidence(0);
    assert_eq!(
        state.judge(seen, at(180, 50)),
        LoopVerdict::Latched(at(99, 50))
    );
    seen.hint = Some(TransportMotionHint {
        moving: Some(true),
        move_age_ms: Some(10),
    });
    assert_eq!(state.judge(seen, at(180, 50)), LoopVerdict::Continue);
}

#[test]
fn a_movement_times_out() {
    let mut state = LoopState::new();
    state.observe(reading(0, 0));
    let mut seen = evidence(0);
    seen.deadline_passed = true;
    assert_eq!(
        state.judge(seen, at(0, 0)),
        LoopVerdict::TimedOut {
            completion_ready: false,
            latch_eligible: false
        }
    );
    seen.error_is_small = true;
    seen.strict = tolerances(100, 50);
    assert_eq!(state.judge(seen, at(-1, 0)), LoopVerdict::Latched(at(0, 0)));
    seen.settling_steps = 2;
    assert_eq!(state.judge(seen, at(0, 0)), LoopVerdict::Reached(at(0, 0)));
}

#[test]
fn pushes_are_selected_and_counted() {
    let mut state = LoopState::new();
    let pushes = PushReading {
        pan_error: 400,
        tilt_error: 400,
        strict: tolerances(50, 24),
        interleave: None,
        direct: Some(PtzDirection::Right),
        pan_push: Some(PtzDirection::Right),
        tilt_push: None,
        risky: RiskyPushes {
            left: false,
            right: true,
            up: false,
            down: false,
        },
        lagging_axis: Some(ControlAxis::Tilt),
    };
    assert_eq!(state.select_push(pushes), Some(PtzDirection::Right));
    assert_eq!(state.failure_modes.axis_swap_lag_hits, 1);
    assert_eq!(state.failure_modes.edge_saturation_hits, 1);
    assert_eq!(state.select_push(pushes), None);
    assert_eq!(state.edge_lockout_blocks, 1);
    let focused = PushReading {
        pan_error: -50,
        tilt_error: 25,
        ..pushes
    };
    assert_eq!(state.select_push(focused), Some(PtzDirection::Up));
}

#[test]
fn ties_are_broken_the_other_way_without_progress() {
    let mut state = LoopState::new();
    assert!(state.tie_break_pan);
    for _ in 0..3 {
        state.note_close_progress(true, false);
    }
    state.note_push(true);
    assert!(!state.tie_break_pan);
    assert_eq!(state.no_progress_steps, 0);
    state.note_close_progress(true, true);
    assert_eq!(state.no_progress_steps, 0);
    state.note_relative_move(4, 0);
    assert!(!state.tie_break_pan);
    state.note_relative_move(4, -1);
    assert!(state.tie_break_pan);
}

#[test]
fn a_mismatch_cools_down() {
    let mut state = LoopState::new();
    let mut seen = reading(0, 0);
    seen.model_mismatch = true;
    seen.commanded = true;
    seen.stationary = true;
    seen.pan_swing = Swing::Reversed;
    state.observe(seen);
    state.observe(seen);
    assert_eq!(state.mismatch_cooldown_steps, 3);
    assert_eq!(state.failure_modes.model_mismatch_hits, 2);
    assert_eq!(state.failure_modes.stale_status_hits, 1);
    assert_eq!(state.pan_reversals, 2);
    for left in [2, 1, 0, 0] {
        state.end_step();
        assert_eq!(state.mismatch_cooldown_steps, left);
    }
}

#[test]
fn tracker_resets_on_none_or_nan_inputs() {
    let tenths = |delta: f64| {
        if delta.is_finite() {
            Some((delta * 10.0).round() as i128)
        } else {
            None
        }
    };
    let mut tracker = PositionSettlingTracker::new();

    tracker.observe(tenths(0.2), tenths(0.3), 10);
    tracker.observe(None, tenths(0.1), 10);
    assert_eq!(tracker.stable_steps(), 0);

    tracker.observe(tenths(0.2), tenths(0.3), 10);
    tracker.observe(tenths(f64::NAN), tenths(0.1), 10);
    assert_eq!(tracker.stable_steps(), 0);
}
