use reocli::error::{AppError, AppResult, ErrorKind};
use reocli::interfaces::runtime::{calibration_camera_key, Environment};
use reocli::model::{
    AxisModelParams, CalibrationParams, CalibrationReport, DeviceInfo, NumericRange, PtzDirection,
    PtzStatus,
};
use reocli::usecases::ptz_calibrate_auto::{
    accepts_saved_calibration, attempt_home_restore_on_failure, axis_model_min_samples,
    axis_model_sample_cap, axis_position, axis_sample_weights, axis_quality_threshold_count, build_axis_count_range,
    calibration_min_move_delta, calibration_pulse_ms, calibration_pulse_speed,
    calibration_stall_delta, can_reuse_saved_calibration, deadband_upper_bound_for_span,
    detect_axis_motion, estimate_deadband_from_samples,
    estimate_directional_deadband_count, evenly_spaced_samples, heuristic_report, map_status_to_counts,
    measure_directional_deadband_count, restore_axis_to_home, reused_report,
    robust_deadband_from_samples, sweep_axis_bounds, validate_measured_calibration_quality,
    AxisKind, AxisMotion, AxisSweep, BoundsStep, DeadbandStep, DetectStep, DirectionalDeadband, HomeRestore,
    ProbeStep, RestoreStep, CALIBRATION_SCHEMA_VERSION, CALIBRATION_SOURCE_HEURISTIC,
    CALIBRATION_SOURCE_MEASURED,
};
use reocli::usecases::ptz_deadband::{load_axis_deadband_hints, AxisDeadbandHints};
use reocli::usecases::ptz_calibration::{
    build_heuristic_calibration, execute, try_build_measured_calibration, usual_ends_are_counts,
    AxisModelEstimate, CalibrationEvents, CalibrationStep, MeasureStep, Measurements,
    StoredCalibration, UsualModels,
};

fn status(calibration_state: Option<i64>) -> PtzStatus {
    PtzStatus {
        calibration_state,
        ..PtzStatus::blank(0)
    }
}

const PAN: AxisMotion = AxisMotion {
    increase: PtzDirection::Right,
    decrease: PtzDirection::Left,
};

const TILT: AxisMotion = AxisMotion {
    increase: PtzDirection::Up,
    decrease: PtzDirection::Down,
};

#[test]
fn can_reuse_saved_calibration_requires_matching_channel() {
    let calibrated = status(Some(2));
    let not_calibrated = status(Some(1));
    let saved = saved_for(&camera(), 3);
    assert!(can_reuse_saved_calibration(&calibrated, 3, &saved));
    assert!(!can_reuse_saved_calibration(&calibrated, 1, &saved));
    assert!(!can_reuse_saved_calibration(&not_calibrated, 3, &saved));
}

#[test]
fn attempt_home_restore_on_failure_restores_known_axes() {
    let calls = attempt_home_restore_on_failure(false, 120, -45, Some(PAN), Some(TILT));
    assert_eq!(calls.len(), 2);
    assert_eq!(
        calls[0],
        HomeRestore {
            axis: AxisKind::Pan,
            home_position: 120,
            motion: PAN
        }
    );
    assert_eq!(
        calls[1],
        HomeRestore {
            axis: AxisKind::Tilt,
            home_position: -45,
            motion: TILT
        }
    );
    assert_eq!(
        attempt_home_restore_on_failure(false, 120, -45, None, Some(TILT)).len(),
        1
    );
}

#[test]
fn attempt_home_restore_on_failure_skips_when_measured_succeeds() {
    assert!(attempt_home_restore_on_failure(true, 120, -45, Some(PAN), Some(TILT)).is_empty());
}

#[test]
fn build_axis_count_range_uses_range_when_present() {
    let range = NumericRange {
        min: -3550,
        max: 3550,
    };
    let mapped = build_axis_count_range(Some(&range), Some(120), 3600);
    assert_eq!(mapped.min_count, -3550);
    assert_eq!(mapped.max_count, 3550);
}

#[test]
fn build_axis_count_range_falls_back_to_default_span() {
    let mapped = build_axis_count_range(None, Some(500), 2000);
    assert_eq!(mapped.min_count, -500);
    assert_eq!(mapped.max_count, 1500);
}

#[test]
fn count_ranges_hold_the_position() {
    let range = NumericRange { min: 10, max: 10 };
    let mapped = build_axis_count_range(Some(&range), Some(-3), 3600);
    assert_eq!((mapped.min_count, mapped.max_count), (-3, 11));
    let mapped = build_axis_count_range(None, None, 0);
    assert_eq!((mapped.min_count, mapped.max_count), (-1, 1));
}

#[test]
fn map_status_to_counts_returns_raw_positions() {
    let status = PtzStatus {
        pan_position: Some(1500),
        tilt_position: Some(-180),
        ..PtzStatus::blank(2)
    };
    let (pan_count, tilt_count) = map_status_to_counts(&status).expect("status should map");
    assert_eq!(pan_count, 1500);
    assert_eq!(tilt_count, -180);
}

#[test]
fn counts_that_are_missing_are_errors() {
    let error = map_status_to_counts(&PtzStatus::blank(2)).expect_err("no pan");
    assert_eq!(error.kind, ErrorKind::UnexpectedResponse);
    assert_eq!(
        error.message,
        "PTZ status missing pan position for channel 2"
    );
    let error = axis_position(&PtzStatus::blank(3), AxisKind::Tilt).expect_err("no tilt");
    assert_eq!(
        error.message,
        "PTZ status missing tilt position for channel 3"
    );
}

#[test]
fn axis_model_sample_policy_biases_tilt_higher_than_pan() {
    let pan_cap = axis_model_sample_cap(AxisKind::Pan);
    let tilt_cap = axis_model_sample_cap(AxisKind::Tilt);
    let pan_min = axis_model_min_samples(AxisKind::Pan);
    let tilt_min = axis_model_min_samples(AxisKind::Tilt);

    assert!(tilt_cap > pan_cap);
    assert!(tilt_min > pan_min);
    assert!(pan_min <= pan_cap);
    assert!(tilt_min <= tilt_cap);
}

#[test]
fn tilt_calibration_pulse_profile_is_finer_than_pan() {
    assert!(calibration_pulse_speed(AxisKind::Tilt) < calibration_pulse_speed(AxisKind::Pan));
    assert!(calibration_pulse_ms(AxisKind::Tilt) < calibration_pulse_ms(AxisKind::Pan));
    assert!(
        calibration_min_move_delta(AxisKind::Tilt) <= calibration_min_move_delta(AxisKind::Pan)
    );
    assert!(calibration_stall_delta(AxisKind::Tilt) <= calibration_stall_delta(AxisKind::Pan));
}

#[test]
fn robust_deadband_from_samples_resists_large_outliers() {
    let estimate =
        robust_deadband_from_samples(&[7, 8, 7, 6, 140, 7, 8]).expect("estimate should exist");
    assert_eq!(estimate, 7);
}

#[test]
fn deadbands_need_a_sample_that_counts() {
    assert_eq!(robust_deadband_from_samples(&[]), None);
    assert_eq!(robust_deadband_from_samples(&[0, -5]), None);
    assert_eq!(robust_deadband_from_samples(&[9]), Some(9));
    assert_eq!(robust_deadband_from_samples(&[4, 5]), Some(5));
    assert_eq!(robust_deadband_from_samples(&[i64::MAX, i64::MAX]), Some(i64::MAX));
    assert_eq!(estimate_deadband_from_samples(&[], 1_000), 6);
}

#[test]
fn estimate_deadband_from_samples_clips_to_span_upper_bound() {
    let span = 1_000;
    let clipped = estimate_deadband_from_samples(&[240, 250, 260, 270, 280], span);
    assert_eq!(clipped, deadband_upper_bound_for_span(span));
    assert_eq!(clipped, 50);
}

#[test]
fn measured_quality_gate_accepts_values_on_axis_thresholds() {
    let pan_span = 7_200;
    let tilt_span = 1_800;
    let pan_threshold = axis_quality_threshold_count(AxisKind::Pan, pan_span);
    let tilt_threshold = axis_quality_threshold_count(AxisKind::Tilt, tilt_span);
    assert_eq!((pan_threshold, tilt_threshold), (144, 54));

    validate_measured_calibration_quality(pan_span, tilt_span, pan_threshold, tilt_threshold)
        .expect("threshold-edge values should be accepted");
}

#[test]
fn measured_quality_gate_rejects_when_pan_p95_exceeds_threshold_by_one() {
    let pan_span = 7_200;
    let tilt_span = 1_800;
    let pan_threshold = axis_quality_threshold_count(AxisKind::Pan, pan_span);
    let tilt_threshold = axis_quality_threshold_count(AxisKind::Tilt, tilt_span);

    let error = validate_measured_calibration_quality(
        pan_span,
        tilt_span,
        pan_threshold + 1,
        tilt_threshold,
    )
    .expect_err("pan above threshold should be rejected");
    assert_eq!(error.kind, ErrorKind::UnexpectedResponse);
    assert!(error.message.contains("pan_p95="));
    assert!(error.message.contains("tilt_p95="));
    assert!(error.message.contains(&format!("max={}", pan_threshold)));
    assert_eq!(
        error.message,
        "measured calibration rejected by quality gate: pan_p95=145 (max=144, ratio=0.0200, floor=12, ceiling=220, span=7200); tilt_p95=54 (max=54, ratio=0.0300, floor=8, ceiling=120, span=1800)"
    );
}

#[test]
fn measured_quality_gate_rejects_when_tilt_p95_exceeds_threshold_by_one() {
    let pan_span = 7_200;
    let tilt_span = 1_800;
    let pan_threshold = axis_quality_threshold_count(AxisKind::Pan, pan_span);
    let tilt_threshold = axis_quality_threshold_count(AxisKind::Tilt, tilt_span);

    let error = validate_measured_calibration_quality(
        pan_span,
        tilt_span,
        pan_threshold,
        tilt_threshold + 1,
    )
    .expect_err("tilt above threshold should be rejected");
    assert_eq!(error.kind, ErrorKind::UnexpectedResponse);
    assert!(error.message.contains(&format!("max={}", tilt_threshold)));
    assert!(error.message.contains("ratio="));
}

#[test]
fn integer_limits_agree_with_the_ratios() {
    for span in 0u64..20_000 {
        let length = span as f64;
        assert_eq!(
            axis_quality_threshold_count(AxisKind::Pan, span),
            ((length * 0.02).round() as i64).clamp(12, 220)
        );
        assert_eq!(
            axis_quality_threshold_count(AxisKind::Tilt, span),
            ((length * 0.03).round() as i64).clamp(8, 120)
        );
        assert_eq!(
            deadband_upper_bound_for_span(span),
            ((length * 0.05).round() as i64).clamp(6, 240)
        );
    }
}

#[test]
fn directional_deadband_compatibility_uses_max_direction() {
    let directional = DirectionalDeadband {
        increase_count: 9,
        decrease_count: 14,
    };
    assert_eq!(directional.compatibility_count(), 14);
    assert_eq!(
        DirectionalDeadband::uniform(0),
        DirectionalDeadband {
            increase_count: 1,
            decrease_count: 1
        }
    );
}

#[test]
fn directions_are_found_by_pushing() {
    let axis = AxisKind::Pan;
    assert!(matches!(detect_axis_motion(axis, &[], 0), DetectStep::Read));
    assert!(matches!(
        detect_axis_motion(axis, &[100], 0),
        DetectStep::Pulse(PtzDirection::Right)
    ));
    assert!(matches!(
        detect_axis_motion(axis, &[100], 1),
        DetectStep::Read
    ));
    assert!(matches!(
        detect_axis_motion(axis, &[100, 120], 1),
        DetectStep::Pulse(PtzDirection::Left)
    ));
    match detect_axis_motion(axis, &[100, 120], 2) {
        DetectStep::Done(Ok(motion)) => assert_eq!(motion, PAN),
        _ => panic!("the direction should be known"),
    }
    match detect_axis_motion(axis, &[100, 80], 2) {
        DetectStep::Done(Ok(motion)) => assert_eq!(motion.increase, PtzDirection::Left),
        _ => panic!("the direction should be known"),
    }
    assert!(matches!(
        detect_axis_motion(axis, &[100, 101], 2),
        DetectStep::Read
    ));
    assert!(matches!(
        detect_axis_motion(axis, &[100, 101, 100], 2),
        DetectStep::Pulse(PtzDirection::Left)
    ));
    match detect_axis_motion(axis, &[100, 101, 100, 80], 4) {
        DetectStep::Done(Ok(motion)) => assert_eq!(motion, PAN),
        _ => panic!("the direction should be known"),
    }
    match detect_axis_motion(AxisKind::Tilt, &[100, 101, 100, 97], 4) {
        DetectStep::Done(Err(error)) => assert_eq!(
            error.message,
            "failed to detect Tilt axis direction: movement delta too small (1, -3)"
        ),
        _ => panic!("the direction should not be known"),
    }
}

#[test]
fn a_sweep_ends_when_the_axis_stalls() {
    let mut samples = Vec::new();
    let mut sweep = AxisSweep::start(AxisKind::Pan, true, 100);
    sweep.record(100, 40, &mut samples);
    assert_eq!((sweep.best, sweep.stall_steps), (40, 0));
    for _ in 0..3 {
        assert!(!sweep.is_over());
        sweep.record(40, 38, &mut samples);
    }
    assert!(sweep.is_over());
    assert_eq!(sweep.best, 38);
    assert_eq!(samples, vec![60, 2, 2, 2]);

    let mut long = AxisSweep::start(AxisKind::Tilt, false, 0);
    let mut steps = 0;
    while !long.is_over() {
        long.record(steps * 10, steps * 10 + 10, &mut samples);
        steps += 1;
    }
    assert_eq!(steps, 64);
    assert_eq!(long.best, 640);
}

#[test]
fn ends_are_swept_until_there_are_enough_samples() {
    assert!(matches!(
        sweep_axis_bounds(AxisKind::Pan, &[], &[], 0),
        BoundsStep::Sweep { toward_min: true }
    ));
    assert!(matches!(
        sweep_axis_bounds(AxisKind::Pan, &[5], &[], 0),
        BoundsStep::Sweep { toward_min: false }
    ));
    assert!(matches!(
        sweep_axis_bounds(AxisKind::Pan, &[5], &[90], 49),
        BoundsStep::Sweep { toward_min: true }
    ));
    match sweep_axis_bounds(AxisKind::Pan, &[5, 3, 4], &[90, 95, 91], 50) {
        BoundsStep::Done(Ok(ends)) => assert_eq!(ends, (3, 95)),
        _ => panic!("the ends should be known"),
    }
    match sweep_axis_bounds(AxisKind::Tilt, &[5; 9], &[5; 9], 0) {
        BoundsStep::Done(Err(error)) => assert_eq!(
            error.message,
            "invalid Tilt span from measured sweep: min=5, max=5"
        ),
        _ => panic!("the ends should be refused"),
    }
}

#[test]
fn an_axis_is_brought_back_slower_when_it_is_near() {
    assert_eq!(restore_axis_to_home(PAN, 100, 0, None), RestoreStep::Read);
    assert_eq!(
        restore_axis_to_home(PAN, 100, 0, Some(90)),
        RestoreStep::Done
    );
    assert_eq!(
        restore_axis_to_home(PAN, 100, 0, Some(60)),
        RestoreStep::Move {
            direction: PtzDirection::Right,
            speed: 2
        }
    );
    assert_eq!(
        restore_axis_to_home(PAN, 100, 0, Some(240)),
        RestoreStep::Move {
            direction: PtzDirection::Left,
            speed: 4
        }
    );
    assert_eq!(
        restore_axis_to_home(PAN, 100, 35, Some(1000)),
        RestoreStep::Move {
            direction: PtzDirection::Left,
            speed: 6
        }
    );
    assert_eq!(
        restore_axis_to_home(PAN, 100, 36, Some(1000)),
        RestoreStep::Done
    );
}

#[test]
fn a_probe_pushes_longer_until_the_axis_moves() {
    let mut pulses = Vec::new();
    for expected in [8, 12, 16, 24, 32, 48, 64, 80, 110] {
        assert_eq!(
            measure_directional_deadband_count(AxisKind::Pan, &pulses),
            ProbeStep::Pulse { pulse_ms: expected }
        );
        pulses.push((10, 12));
    }
    assert_eq!(
        measure_directional_deadband_count(AxisKind::Pan, &pulses),
        ProbeStep::Done { count: 8 }
    );
    assert_eq!(
        measure_directional_deadband_count(AxisKind::Pan, &[(10, 12), (12, 3)]),
        ProbeStep::Done { count: 9 }
    );
}

#[test]
fn saved_calibrations_belong_to_a_camera_and_a_version() {
    let device = DeviceInfo {
        model: "M".to_string(),
        firmware: "F".to_string(),
        serial_number: "S".to_string(),
    };
    assert!(accepts_saved_calibration(2, "s__m__f", &device));
    assert!(!accepts_saved_calibration(1, "s__m__f", &device));
    assert!(!accepts_saved_calibration(2, "s__m__g", &device));
}

#[test]
fn reports_say_where_a_calibration_comes_from() {
    assert_eq!(reused_report().notes, "reused_saved_params");
    let error = AppError::new(ErrorKind::Network, "unreachable");
    assert_eq!(
        heuristic_report(&error).notes,
        "fallback_to_heuristic: unreachable"
    );
}

#[test]
fn tilt_axis_weights_downweight_far_outlier_samples() {
    let samples = [40, 41, 42, 43, 180, 44, 45];
    let weights = |axis| {
        axis_sample_weights(axis, &samples)
            .into_iter()
            .map(|weight| f64::from(weight) / 1000.0)
            .collect::<Vec<f64>>()
    };
    let pan_weights = weights(AxisKind::Pan);
    let tilt_weights = weights(AxisKind::Tilt);

    assert!(pan_weights
        .iter()
        .all(|weight| (*weight - 1.0).abs() <= f64::EPSILON));
    assert!(tilt_weights[4] < tilt_weights[3]);
    assert!(tilt_weights[4] <= 0.2);
    assert_eq!(tilt_weights[4], 0.078);
}

// ---------------------------------------------------------------- a calibration as a whole

fn camera() -> DeviceInfo {
    DeviceInfo {
        model: "model-1".to_string(),
        firmware: "fw-1".to_string(),
        serial_number: "serial-1".to_string(),
    }
}

fn environment() -> Environment {
    Environment {
        endpoint: None,
        token: None,
        token_cache_path: None,
        user: None,
        password: None,
        calibration_dir: Some("/c".to_string()),
        ptz_backend: None,
        onvif_device_service_url: None,
        onvif_profile_token: None,
        onvif_port: None,
        home: None,
    }
}

fn model(alpha: f64, beta: f64) -> AxisModelParams {
    AxisModelParams {
        alpha: serde_json::Value::from(alpha),
        beta: serde_json::Value::from(beta),
    }
}

fn saved_for(device: &DeviceInfo, channel: u8) -> StoredCalibration {
    StoredCalibration {
        schema_version: CALIBRATION_SCHEMA_VERSION,
        source: CALIBRATION_SOURCE_MEASURED.to_string(),
        camera_key: calibration_camera_key(device),
        channel,
        calibration: CalibrationParams {
            serial_number: device.serial_number.clone(),
            model: device.model.clone(),
            firmware: device.firmware.clone(),
            pan_min_count: -3550,
            pan_max_count: 3550,
            pan_deadband_count: 6,
            pan_deadband_increase_count: Some(6),
            pan_deadband_decrease_count: Some(6),
            tilt_min_count: 0,
            tilt_max_count: 900,
            tilt_deadband_count: 6,
            tilt_deadband_increase_count: Some(6),
            tilt_deadband_decrease_count: Some(6),
            pan_model: model(0.9, 213.0),
            tilt_model: model(0.9, 27.0),
            created_at: "1".to_string(),
        },
    }
}

fn at_home(calibration_state: Option<i64>) -> PtzStatus {
    PtzStatus {
        pan_position: Some(120),
        tilt_position: Some(40),
        pan_range: Some(NumericRange {
            min: -3550,
            max: 3550,
        }),
        tilt_range: Some(NumericRange { min: 0, max: 900 }),
        calibration_state,
        ..PtzStatus::blank(0)
    }
}

/// Measures a camera that stands still whatever it is told.
fn measure_a_stuck_camera(
    device: &DeviceInfo,
    status: &PtzStatus,
) -> AppResult<(CalibrationParams, CalibrationReport)> {
    let mut done = Measurements::new();
    loop {
        match try_build_measured_calibration(device, status, &done, "7") {
            MeasureStep::Detect(AxisKind::Pan) => {
                let mut readings = Vec::new();
                let mut pulses = 0;
                done.pan_motion = loop {
                    match detect_axis_motion(AxisKind::Pan, &readings, pulses) {
                        DetectStep::Read => readings.push(120),
                        DetectStep::Pulse(_) => pulses += 1,
                        DetectStep::Done(result) => break Some(result),
                    }
                };
            }
            MeasureStep::Done {
                restores,
                stops,
                result,
            } => {
                assert!(restores.is_empty());
                assert!(stops);
                return result;
            }
            other => panic!("unexpected step {other:?}"),
        }
    }
}

#[test]
fn execute_requires_channel_match_for_saved_reuse() {
    let env = environment();
    let mut events = CalibrationEvents::new();
    let mut written = None;
    let report = loop {
        match execute(0, &env, &events) {
            CalibrationStep::AskDevice => events.device = Some(Ok(camera())),
            CalibrationStep::AskStatus => events.status = Some(Ok(at_home(Some(2)))),
            CalibrationStep::ReadSaved { path } => {
                assert_eq!(path, "/c/serial_1__model_1__fw_1.json");
                events.saved = Some(Ok(Some(saved_for(&camera(), 1))));
            }
            CalibrationStep::Measure => {
                events.measured = Some(measure_a_stuck_camera(&camera(), &at_home(Some(2))));
            }
            CalibrationStep::UsualModels {
                pan_span,
                tilt_span,
            } => {
                assert_eq!((pan_span, tilt_span), (7100, 900));
                events.usual = Some(UsualModels {
                    pan_model: model(0.9, 213.0),
                    tilt_model: model(0.9, 27.0),
                    created_at: "8".to_string(),
                });
            }
            CalibrationStep::Write { path, stored } => {
                assert_eq!(path, "/c/serial_1__model_1__fw_1.json");
                written = Some(stored);
                events.written = Some(Ok(()));
            }
            CalibrationStep::AskLastStatus => {
                events.last_status = Some(Ok(at_home(Some(2))));
            }
            CalibrationStep::Done(result) => break result,
        }
    }
    .expect("calibration should fallback and succeed");
    assert!(!report.reused_existing);
    assert_eq!(report.channel, 0);
    assert_eq!(report.params.channel, 0);
    assert_eq!(report.params.camera_key, calibration_camera_key(&camera()));
    assert_eq!(report.params.source, CALIBRATION_SOURCE_HEURISTIC);
    assert_eq!((report.pan_count, report.tilt_count), (120, 40));
    assert_eq!(
        report.report.notes,
        "fallback_to_heuristic: failed to detect Pan axis direction: movement delta too small (0, 0)"
    );
    let written = written.expect("the calibration should be written");
    assert_eq!(written.calibration.pan_min_count, -3550);
    assert_eq!(written.calibration.tilt_max_count, 900);
    assert_eq!(written.calibration.pan_deadband_increase_count, Some(6));
    assert_eq!(written.calibration.created_at, "8");
}

#[test]
fn a_saved_calibration_is_used_again() {
    let env = environment();
    let mut events = CalibrationEvents::new();
    events.device = Some(Ok(camera()));
    events.status = Some(Ok(at_home(Some(2))));
    events.saved = Some(Ok(Some(saved_for(&camera(), 0))));
    match execute(0, &env, &events) {
        CalibrationStep::Done(Ok(report)) => {
            assert!(report.reused_existing);
            assert_eq!(report.calibrated_state, Some(true));
            assert_eq!(report.calibration.pan_max_count, 3550);
            assert_eq!(report.report.notes, "reused_saved_params");
        }
        other => panic!("unexpected step {other:?}"),
    }
    events.status = Some(Ok(at_home(Some(1))));
    assert!(matches!(execute(0, &env, &events), CalibrationStep::Measure));
    events.status = Some(Ok(at_home(Some(2))));
    let mut older = saved_for(&camera(), 0);
    older.schema_version = 1;
    events.saved = Some(Ok(Some(older)));
    assert!(matches!(execute(0, &env, &events), CalibrationStep::Measure));
    events.saved = Some(Err(AppError::new(ErrorKind::UnexpectedResponse, "unreadable")));
    match execute(0, &env, &events) {
        CalibrationStep::Done(Err(error)) => assert_eq!(error.message, "unreadable"),
        other => panic!("unexpected step {other:?}"),
    }
}

fn estimate(residual_p95_count: i64, sample_count: usize) -> AxisModelEstimate {
    AxisModelEstimate {
        model: model(0.8, 100.0),
        residual_p95_count,
        fallback_blend_ratio: "0.25".to_string(),
        sample_count,
    }
}

/// What was measured of a camera that moves, up to its models.
fn measured_up_to_models(pan_residual: i64) -> Measurements {
    let mut done = Measurements::new();
    done.pan_motion = Some(Ok(PAN));
    done.tilt_motion = Some(Ok(TILT));
    done.pan_ends = Some(Ok((0, 7000)));
    done.tilt_ends = Some(Ok((-10, 1190)));
    done.pan_restored = Some(Ok(()));
    done.tilt_restored = Some(Ok(()));
    done.estimates = Some((estimate(pan_residual, 80), estimate(9, 120)));
    done
}

#[test]
fn a_camera_is_measured_in_order() {
    let step = |done: &Measurements| {
        try_build_measured_calibration(&camera(), &at_home(None), done, "7")
    };
    let full = measured_up_to_models(40);
    let mut done = Measurements::new();
    assert!(matches!(step(&done), MeasureStep::Detect(AxisKind::Pan)));
    done.pan_motion = full.pan_motion;
    assert!(matches!(step(&done), MeasureStep::Detect(AxisKind::Tilt)));
    done.tilt_motion = full.tilt_motion;
    assert!(matches!(
        step(&done),
        MeasureStep::Sweep { axis: AxisKind::Pan, motion: PAN }
    ));
    done.pan_ends = full.pan_ends;
    assert!(matches!(
        step(&done),
        MeasureStep::Sweep { axis: AxisKind::Tilt, motion: TILT }
    ));
    done.tilt_ends = full.tilt_ends;
    match step(&done) {
        MeasureStep::Restore(home) => {
            assert_eq!((home.axis, home.home_position), (AxisKind::Pan, 120));
        }
        other => panic!("unexpected step {other:?}"),
    }
    done.pan_restored = full.pan_restored;
    match step(&done) {
        MeasureStep::Restore(home) => {
            assert_eq!((home.axis, home.home_position), (AxisKind::Tilt, 40));
        }
        other => panic!("unexpected step {other:?}"),
    }
    done.tilt_restored = full.tilt_restored;
    assert!(matches!(
        step(&done),
        MeasureStep::Fit { pan_span: 7000, tilt_span: 1200 }
    ));
    done.estimates = full.estimates;
    assert!(matches!(
        step(&done),
        MeasureStep::Deadband { axis: AxisKind::Pan, motion: PAN, span: 7000 }
    ));
    done.pan_deadband = Some(Ok(DirectionalDeadband {
        increase_count: 9,
        decrease_count: 12,
    }));
    assert!(matches!(
        step(&done),
        MeasureStep::Deadband { axis: AxisKind::Tilt, motion: TILT, span: 1200 }
    ));
    done.tilt_deadband = Some(Err(AppError::new(ErrorKind::Network, "gone")));
    match step(&done) {
        MeasureStep::Done {
            restores,
            stops,
            result,
        } => {
            assert!(restores.is_empty());
            assert!(stops);
            let (params, report) = result.expect("calibration");
            assert_eq!((params.pan_min_count, params.pan_max_count), (0, 7000));
            assert_eq!((params.tilt_min_count, params.tilt_max_count), (-10, 1190));
            assert_eq!(params.pan_deadband_count, 12);
            assert_eq!(params.pan_deadband_increase_count, Some(9));
            assert_eq!(params.tilt_deadband_count, 6);
            assert_eq!(params.created_at, "7");
            assert_eq!(report.samples, 120);
            assert_eq!(report.pan_error_p95_count, 40);
            assert_eq!(
                report.notes,
                "created_from_measured_sweep; pan_samples=80; tilt_samples=120; pan_blend=0.25; tilt_blend=0.25"
            );
        }
        other => panic!("unexpected step {other:?}"),
    }
}

#[test]
fn a_camera_that_cannot_be_measured_is_brought_home() {
    let step = |done: &Measurements| {
        try_build_measured_calibration(&camera(), &at_home(None), done, "7")
    };
    match step(&measured_up_to_models(141)) {
        MeasureStep::Done {
            restores,
            stops,
            result,
        } => {
            assert!(stops);
            let homes: Vec<(AxisKind, i64)> = restores
                .iter()
                .map(|home| (home.axis, home.home_position))
                .collect();
            assert_eq!(homes, vec![(AxisKind::Pan, 120), (AxisKind::Tilt, 40)]);
            let error = result.expect_err("quality");
            assert!(error.message.starts_with("measured calibration rejected by quality gate"));
        }
        other => panic!("unexpected step {other:?}"),
    }
    let mut done = Measurements::new();
    done.pan_motion = Some(Ok(PAN));
    done.tilt_motion = Some(Err(AppError::new(ErrorKind::Network, "gone")));
    match step(&done) {
        MeasureStep::Done {
            restores, result, ..
        } => {
            assert_eq!(restores.len(), 1);
            assert_eq!(restores[0].axis, AxisKind::Pan);
            assert_eq!(result.expect_err("error").message, "gone");
        }
        other => panic!("unexpected step {other:?}"),
    }
    match try_build_measured_calibration(&camera(), &PtzStatus::blank(3), &done, "7") {
        MeasureStep::Done {
            restores,
            stops,
            result,
        } => {
            assert!(restores.is_empty());
            assert!(!stops);
            assert_eq!(
                result.expect_err("error").message,
                "PTZ status missing pan position for channel 3"
            );
        }
        other => panic!("unexpected step {other:?}"),
    }
}

#[test]
fn a_camera_that_is_not_measured_gets_the_usual_calibration() {
    let usual = UsualModels {
        pan_model: model(0.9, 108.0),
        tilt_model: model(0.9, 54.0),
        created_at: "8".to_string(),
    };
    let status = PtzStatus {
        pan_position: Some(100),
        ..PtzStatus::blank(0)
    };
    assert!(usual_ends_are_counts(&status));
    let params = build_heuristic_calibration(&camera(), &status, &usual);
    assert_eq!((params.pan_min_count, params.pan_max_count), (-1700, 1900));
    assert_eq!((params.tilt_min_count, params.tilt_max_count), (-900, 900));
    assert_eq!(params.pan_model.beta, serde_json::Value::from(108.0));
    let far = PtzStatus {
        pan_position: Some(i64::MAX),
        ..PtzStatus::blank(0)
    };
    assert!(!usual_ends_are_counts(&far));
}

#[test]
fn evenly_spaced_samples_caps_to_target_count() {
    let source: Vec<u64> = (0..100).collect();
    let sampled = evenly_spaced_samples(&source, 50);
    assert_eq!(sampled.len(), 50);
    assert_eq!(sampled.first().copied(), Some(0));
    assert_eq!(sampled.last().copied(), Some(99));
    assert_eq!(sampled[1], 2);
    assert_eq!(evenly_spaced_samples(&source, 100), source);
    assert_eq!(evenly_spaced_samples(&source, 1), vec![50]);
    assert!(evenly_spaced_samples(&source, 0).is_empty());
}

#[test]
fn both_directions_are_probed_in_turn() {
    let mut increase = Vec::new();
    let mut decrease = Vec::new();
    let mut probed = Vec::new();
    let deadband = loop {
        match estimate_directional_deadband_count(PAN, &increase, &decrease, 7_000) {
            DeadbandStep::Probe { direction, preload } => {
                assert_ne!(direction, preload);
                probed.push(direction);
                if direction == PAN.increase {
                    increase.push(9);
                } else {
                    decrease.push(12);
                }
            }
            DeadbandStep::Done(deadband) => break deadband,
        }
    };
    assert_eq!(probed.len(), 14);
    assert_eq!(probed[0], PAN.increase);
    assert_eq!(probed[1], PAN.decrease);
    assert_eq!((deadband.increase_count, deadband.decrease_count), (9, 12));
}

#[test]
fn deadbands_are_taken_from_a_calibration() {
    let none = AxisDeadbandHints {
        pan_count: 0,
        tilt_count: 0,
        pan_positive_count: 0,
        pan_negative_count: 0,
        tilt_positive_count: 0,
        tilt_negative_count: 0,
    };
    assert_eq!(load_axis_deadband_hints(None), none);
    let mut saved = saved_for(&camera(), 0);
    saved.calibration.pan_deadband_increase_count = Some(9);
    saved.calibration.pan_deadband_decrease_count = Some(-14);
    saved.calibration.tilt_deadband_count = 500;
    saved.calibration.tilt_deadband_increase_count = None;
    saved.calibration.tilt_deadband_decrease_count = Some(0);
    assert_eq!(
        load_axis_deadband_hints(Some(&saved)),
        AxisDeadbandHints {
            pan_count: 14,
            tilt_count: 200,
            pan_positive_count: 9,
            pan_negative_count: 14,
            tilt_positive_count: 200,
            tilt_negative_count: 1,
        }
    );
}

#[test]
fn samples_are_blended_with_doubles() {
    let blend = |samples: &[i64]| {
        let mut sorted: Vec<i64> = samples.iter().copied().filter(|n| *n > 0).collect();
        sorted.sort_unstable();
        let mid = sorted.len() / 2;
        let median = if sorted.len() % 2 == 1 {
            sorted[mid] as f64
        } else {
            (sorted[mid - 1] as f64 + sorted[mid] as f64) * 0.5
        };
        let trim = (sorted.len() as f64 * 0.2).floor() as usize;
        let kept = &sorted[trim..sorted.len() - trim];
        let mean = kept.iter().sum::<i64>() as f64 / kept.len() as f64;
        (((median + mean) * 0.5).round() as i64).max(1)
    };
    let large = (1i64 << 53) + 1;
    for samples in [
        vec![1],
        vec![5, 6],
        vec![1, 2, 4],
        vec![7, 8, 7, 6, 140, 7, 8],
        vec![large],
        vec![large, large + 2],
        vec![large, 3, large + 6, large * 5, 11],
        vec![i64::MAX],
        vec![i64::MAX - 511, 1],
        vec![-4, 0, 3, 2, 2, 2, 9],
    ] {
        assert_eq!(
            robust_deadband_from_samples(&samples),
            Some(blend(&samples)),
            "{samples:?}"
        );
    }
    assert_eq!(robust_deadband_from_samples(&[large]), Some(1i64 << 53));
    assert_eq!(robust_deadband_from_samples(&[i64::MAX, i64::MAX]), Some(i64::MAX));
    assert_eq!(robust_deadband_from_samples(&[-1, 0]), None);
}
