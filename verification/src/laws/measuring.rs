//! Measuring the camera, and what is kept of it.
use crate::error::ErrorModel;
use crate::interfaces::runtime::{calibration_path_of, camera_key_of, EnvironmentModel};
use crate::model::{AxisModel, DeviceModel, NumericRange, StatusModel};
use crate::usecases::ptz_calibrate_auto::{
    ascending, deadband_from, deadband_limit, quality_error, quality_limit, range_ends,
    sample_weight, weight_near, AxisKind, AxisMotion, DirectionalDeadband, HomeRestore, FULL_WEIGHT,
};
use crate::usecases::ptz_calibration::{
    calibration_step, measure_step, measured_report, params_of, usual_pan_ends, usual_tilt_ends,
    CalibrationStepModel, EstimateModel, EventsModel, MeasureModel, MeasurementsModel, StoredModel,
};
use vstd::prelude::*;

verus! {

// ---------------------------------------------------------------- the quality

/// A measurement is good enough where its error is no more than two hundredths of the pan axis
/// and three of the tilt axis, within the limits of each.
pub proof fn law_quality_by_axis(span: int)
    ensures
        12 <= quality_limit(AxisKind::Pan, span) <= 220,
        8 <= quality_limit(AxisKind::Tilt, span) <= 120,
        600 <= span <= 11000 ==> 2 * span - 50 <= 100 * quality_limit(AxisKind::Pan, span) <= 2
            * span + 50,
        270 <= span <= 4000 ==> 3 * span - 50 <= 100 * quality_limit(AxisKind::Tilt, span) <= 3
            * span + 50,
        span <= 500 ==> quality_limit(AxisKind::Pan, span) == 12,
        span >= 11025 ==> quality_limit(AxisKind::Pan, span) == 220,
{
}

/// Each axis is held to its own limit, and a calibration passes only where both do.
pub proof fn law_quality_of_both_axes(pan_span: int, tilt_span: int, pan_error: int, tilt_error: int)
    ensures
        quality_error(pan_span, tilt_span, pan_error, tilt_error) is None <==> pan_error
            <= quality_limit(AxisKind::Pan, pan_span) && tilt_error <= quality_limit(
            AxisKind::Tilt,
            tilt_span,
        ),
        pan_error > 220 || tilt_error > 120 ==> quality_error(
            pan_span,
            tilt_span,
            pan_error,
            tilt_error,
        ) is Some,
        pan_error <= 12 && tilt_error <= 8 ==> quality_error(
            pan_span,
            tilt_span,
            pan_error,
            tilt_error,
        ) is None,
{
}

/// The samples of the pan axis all count in full. Those of the tilt axis count in full within
/// a quarter of their middle, and the less the further off they are.
pub proof fn law_samples_count(samples: Seq<i64>, sample: i64, twice_middle: int, near: int, far: int)
    requires
        0 < twice_middle,
    ensures
        sample_weight(AxisKind::Pan, samples, sample) == FULL_WEIGHT,
        ascending(samples).len() == 0 ==> sample_weight(AxisKind::Tilt, samples, sample)
            == FULL_WEIGHT,
        4 * (2 * near - twice_middle) <= twice_middle && 4 * (twice_middle - 2 * near)
            <= twice_middle ==> weight_near(twice_middle, near) == FULL_WEIGHT,
{
}

/// The smallest movement that is taken is one count at least and no more than its limit; it is
/// six where nothing was measured.
pub proof fn law_deadband_is_within_its_limit(samples: Seq<i64>, span: int)
    ensures
        1 <= deadband_from(samples, span) <= deadband_limit(span),
        ascending(samples).len() == 0 ==> deadband_from(samples, span) == 6,
{
}

// ---------------------------------------------------------------- the usual ends

/// The ends of an axis that was not measured: those that the camera reports, or half of the
/// usual length to either side of where it is; and never short of where it is.
pub proof fn law_usual_ends(range: NumericRange, position: i64, span: int)
    requires
        span >= 2,
        span % 2 == 0,
    ensures
        range.min < range.max && range.min <= position <= range.max ==> range_ends(
            Some(range),
            Some(position),
            span,
        ) == (range.min as int, range.max as int),
        range.min < range.max && position > range.max ==> range_ends(
            Some(range),
            Some(position),
            span,
        ) == (range.min as int, position as int),
        range.min < range.max && position < range.min ==> range_ends(
            Some(range),
            Some(position),
            span,
        ) == (position as int, range.max as int),
        range_ends(None, Some(position), span).1 - range_ends(None, Some(position), span).0 == span,
        range_ends(None, Some(position), span).0 + range_ends(None, Some(position), span).1 == 2
            * position,
        range.min < range.max ==> range_ends(Some(range), None, span) == (
            range.min as int,
            range.max as int,
        ),
{
}

/// The usual ends of each axis come from its own range and its own position.
pub proof fn law_usual_ends_are_of_their_axis(status: StatusModel, pan: i64, tilt: i64)
    ensures
        status.pan_range is None && status.pan_position == Some(pan) ==> usual_pan_ends(status) == (
            pan - 1800,
            pan + 1800,
        ),
        status.tilt_range is None && status.tilt_position == Some(tilt) ==> usual_tilt_ends(status)
            == (tilt - 900, tilt + 900),
        (status.pan_range matches Some(range) && status.pan_position == Some(pan) && range.min
            <= pan <= range.max && range.min < range.max) ==> usual_pan_ends(status) == (
            status.pan_range->0.min as int,
            status.pan_range->0.max as int,
        ),
        (status.tilt_range matches Some(range) && status.tilt_position == Some(tilt) && range.min
            <= tilt <= range.max && range.min < range.max) ==> usual_tilt_ends(status) == (
            status.tilt_range->0.min as int,
            status.tilt_range->0.max as int,
        ),
{
}

// ---------------------------------------------------------------- what is kept

/// What is kept of a measurement, each value for its own axis and end.
pub proof fn law_what_is_kept(
    device: DeviceModel,
    pan_ends: (i64, i64),
    tilt_ends: (i64, i64),
    pan_deadband: DirectionalDeadband,
    tilt_deadband: DirectionalDeadband,
    models: (AxisModel, AxisModel),
    created_at: Seq<char>,
)
    ensures
        ({
            let kept = params_of(
                device,
                pan_ends,
                tilt_ends,
                pan_deadband,
                tilt_deadband,
                models,
                created_at,
            );
            &&& kept.serial_number == device.serial_number
            &&& kept.model == device.model
            &&& kept.firmware == device.firmware
            &&& (kept.pan_min_count, kept.pan_max_count) == pan_ends
            &&& (kept.tilt_min_count, kept.tilt_max_count) == tilt_ends
            &&& kept.pan_deadband_increase_count == Some(pan_deadband.increase_count)
            &&& kept.pan_deadband_decrease_count == Some(pan_deadband.decrease_count)
            &&& kept.tilt_deadband_increase_count == Some(tilt_deadband.increase_count)
            &&& kept.tilt_deadband_decrease_count == Some(tilt_deadband.decrease_count)
            &&& kept.pan_deadband_count >= pan_deadband.increase_count && kept.pan_deadband_count
                >= pan_deadband.decrease_count && (kept.pan_deadband_count
                == pan_deadband.increase_count || kept.pan_deadband_count
                == pan_deadband.decrease_count)
            &&& kept.tilt_deadband_count >= tilt_deadband.increase_count
                && kept.tilt_deadband_count >= tilt_deadband.decrease_count && (
            kept.tilt_deadband_count == tilt_deadband.increase_count || kept.tilt_deadband_count
                == tilt_deadband.decrease_count)
            &&& kept.pan_model == models.0
            &&& kept.tilt_model == models.1
            &&& kept.created_at == created_at
        }),
{
}

/// What is reported of a measurement.
pub proof fn law_what_is_reported(pan: EstimateModel, tilt: EstimateModel)
    ensures
        measured_report(pan, tilt).pan_error_p95_count == pan.residual_p95_count,
        measured_report(pan, tilt).tilt_error_p95_count == tilt.residual_p95_count,
        measured_report(pan, tilt).samples >= pan.sample_count,
        measured_report(pan, tilt).samples >= tilt.sample_count,
        measured_report(pan, tilt).samples == pan.sample_count || measured_report(pan, tilt).samples
            == tilt.sample_count,
{
}

// ---------------------------------------------------------------- the steps

/// Something was done, and it succeeded.
pub open spec fn is_good<T>(outcome: Option<Result<T, ErrorModel>>) -> bool {
    outcome matches Some(Ok(_))
}

/// Both axes are tried, then swept, then taken back to where they were, pan before tilt each
/// time, with the directions that were found for each.
pub proof fn law_steps_of_measuring(
    device: DeviceModel,
    status: StatusModel,
    done: MeasurementsModel,
    created_at: Seq<char>,
    home: (i64, i64),
    pan: AxisMotion,
    tilt: AxisMotion,
)
    requires
        status.pan_position == Some(home.0),
        status.tilt_position == Some(home.1),
    ensures
        done.pan_motion is None ==> measure_step(device, status, done, created_at)
            == MeasureModel::Detect(AxisKind::Pan),
        done.pan_motion == Some(Ok::<AxisMotion, ErrorModel>(pan)) && done.tilt_motion is None
            ==> measure_step(device, status, done, created_at) == MeasureModel::Detect(
            AxisKind::Tilt,
        ),
        done.pan_motion == Some(Ok::<AxisMotion, ErrorModel>(pan)) && done.tilt_motion == Some(
            Ok::<AxisMotion, ErrorModel>(tilt),
        ) ==> {
            let step = measure_step(device, status, done, created_at);
            &&& done.pan_ends is None ==> step == (MeasureModel::Sweep {
                axis: AxisKind::Pan,
                motion: pan,
            })
            &&& (is_good(done.pan_ends) && done.tilt_ends is None) ==> step == (
            MeasureModel::Sweep { axis: AxisKind::Tilt, motion: tilt })
            &&& (is_good(done.pan_ends) && is_good(done.tilt_ends) && done.pan_restored is None) ==> step == MeasureModel::Restore(
                HomeRestore { axis: AxisKind::Pan, home_position: home.0, motion: pan },
            )
            &&& (is_good(done.pan_ends) && is_good(done.tilt_ends) && is_good(done.pan_restored)
                && done.tilt_restored is None) ==> step
                == MeasureModel::Restore(
                HomeRestore { axis: AxisKind::Tilt, home_position: home.1, motion: tilt },
            )
        },
{
}

/// Once everything is measured, what is kept is what was measured of each axis.
pub proof fn law_result_of_measuring(
    device: DeviceModel,
    status: StatusModel,
    done: MeasurementsModel,
    created_at: Seq<char>,
    pan_ends: (i64, i64),
    tilt_ends: (i64, i64),
    pan: EstimateModel,
    tilt: EstimateModel,
    pan_deadband: DirectionalDeadband,
    tilt_deadband: DirectionalDeadband,
)
    requires
        status.pan_position is Some && status.tilt_position is Some,
        done.pan_motion matches Some(Ok(_)),
        done.tilt_motion matches Some(Ok(_)),
        done.pan_ends == Some(Ok::<(i64, i64), ErrorModel>(pan_ends)),
        done.tilt_ends == Some(Ok::<(i64, i64), ErrorModel>(tilt_ends)),
        done.pan_restored matches Some(Ok(_)),
        done.tilt_restored matches Some(Ok(_)),
        done.estimates == Some((pan, tilt)),
        done.pan_deadband == Some(Ok::<DirectionalDeadband, ErrorModel>(pan_deadband)),
        done.tilt_deadband == Some(Ok::<DirectionalDeadband, ErrorModel>(tilt_deadband)),
        pan.residual_p95_count <= 12,
        tilt.residual_p95_count <= 8,
    ensures
        measure_step(device, status, done, created_at) matches MeasureModel::Done {
            restores,
            stops,
            result,
        } && restores.len() == 0 && stops && (result matches Ok((kept, report)) && {
            &&& kept.pan_min_count == pan_ends.0 && kept.pan_max_count == pan_ends.1
            &&& kept.tilt_min_count == tilt_ends.0 && kept.tilt_max_count == tilt_ends.1
            &&& kept.pan_deadband_increase_count == Some(pan_deadband.increase_count)
            &&& kept.tilt_deadband_decrease_count == Some(tilt_deadband.decrease_count)
            &&& kept.pan_model == pan.model && kept.tilt_model == tilt.model
            &&& kept.serial_number == device.serial_number
            &&& report.pan_error_p95_count == pan.residual_p95_count
        }),
{
    law_quality_of_both_axes(
        crate::usecases::ptz_calibration::span_of(pan_ends),
        crate::usecases::ptz_calibration::span_of(tilt_ends),
        pan.residual_p95_count as int,
        tilt.residual_p95_count as int,
    );
}

/// A calibration that was kept is used again where it was made by this version for the same
/// camera and the same channel, and the camera says that it is calibrated; then nothing is
/// measured or written.
pub proof fn law_kept_calibration_is_used(
    channel: u8,
    env: EnvironmentModel,
    device: DeviceModel,
    status: StatusModel,
    stored: StoredModel,
    events: EventsModel,
)
    requires
        events.device == Some(Ok::<DeviceModel, ErrorModel>(device)),
        events.status == Some(Ok::<StatusModel, ErrorModel>(status)),
        events.saved == Some(Ok::<Option<StoredModel>, ErrorModel>(Some(stored))),
        status.pan_position is Some && status.tilt_position is Some,
    ensures
        stored.schema_version == 2 && stored.camera_key == camera_key_of(device) && stored.channel
            == channel && status.calibration_state == Some(2i64) ==> (calibration_step(
            channel,
            env,
            events,
        ) matches CalibrationStepModel::Done(Ok(summary)) && summary.reused_existing
            && summary.calibration == stored.calibration && summary.channel == channel
            && summary.pan_count == status.pan_position->0 && summary.tilt_count
            == status.tilt_position->0 && summary.calibration_path == calibration_path_of(
            env,
            device,
        )),
        events.measured is None && (stored.schema_version != 2 || stored.camera_key
            != camera_key_of(device) || stored.channel != channel || status.calibration_state
            != Some(2i64)) ==> calibration_step(channel, env, events) is Measure,
{
}

/// The camera is asked what it is and where it is before anything else.
pub proof fn law_first_steps_of_calibrating(channel: u8, env: EnvironmentModel, events: EventsModel)
    ensures
        events.device is None ==> calibration_step(channel, env, events) is AskDevice,
        is_good(events.device) && events.status is None ==> calibration_step(
            channel,
            env,
            events,
        ) is AskStatus,
        is_good(events.device) && is_good(events.status)
            && events.status->0->Ok_0.calibration_state == Some(2i64) && events.saved is None ==> (
        calibration_step(channel, env, events) matches CalibrationStepModel::ReadSaved { path }
            && path == calibration_path_of(env, events.device->0->Ok_0)),
{
}

// ---------------------------------------------------------------- choosing samples

/// Samples are chosen at even distances: each is at its share of the way, rounded down.
pub proof fn law_samples_are_chosen_evenly(samples: Seq<u64>, count: nat, i: int)
    requires
        2 <= count < samples.len(),
        0 <= i < count,
    ensures
        exists|k: int|
            0 <= k < samples.len() && #[trigger] samples[k] == crate::usecases::ptz_calibrate_auto::spaced(
                samples,
                count,
            )[i] && k * (count - 1) <= i * (samples.len() - 1) < (k + 1) * (count - 1),
{
    let len = samples.len() as int;
    let k = crate::usecases::ptz_calibrate_auto::spaced_index(i, len, count as int);
    let n = i * (len - 1);
    let d = count - 1;
    assert(0 <= n <= d * (len - 1)) by (nonlinear_arith)
        requires
            0 <= i <= d,
            n == i * (len - 1),
            len >= 1,
    ;
    vstd::arithmetic::div_mod::lemma_fundamental_div_mod(n, d);
    assert(k * d <= n < (k + 1) * d) by (nonlinear_arith)
        requires
            n == d * (n / d) + n % d,
            0 <= n % d < d,
            k == n / d,
    ;
    assert(0 <= k < len) by (nonlinear_arith)
        requires
            k * d <= n,
            n < (k + 1) * d,
            0 <= n <= d * (len - 1),
            d > 0,
    ;
    assert(samples[k] == crate::usecases::ptz_calibrate_auto::spaced(samples, count)[i]);
}

/// Few enough samples are all taken, and of many the one in the middle where one is wanted.
pub proof fn law_few_samples_are_all_taken(samples: Seq<u64>, count: nat)
    ensures
        samples.len() <= count ==> crate::usecases::ptz_calibrate_auto::spaced(samples, count)
            == samples,
        samples.len() > 1 ==> crate::usecases::ptz_calibrate_auto::spaced(samples, 1) == seq![
            samples[samples.len() as int / 2],
        ],
{
}

/// A sample of the tilt axis that is further off counts for the part by which it is further
/// off than a quarter of the middle, in thousandths, rounded down.
pub proof fn law_samples_further_off_count_less(twice_middle: int, sample: int)
    requires
        0 < twice_middle,
        4 * (2 * sample - twice_middle) > twice_middle || 4 * (twice_middle - 2 * sample)
            > twice_middle,
    ensures
        ({
            let off = if 2 * sample >= twice_middle {
                2 * sample - twice_middle
            } else {
                twice_middle - 2 * sample
            };
            let weight = weight_near(twice_middle, sample);
            weight * (4 * off) <= 1000 * twice_middle < (weight + 1) * (4 * off)
        }),
{
    let off = if 2 * sample >= twice_middle {
        2 * sample - twice_middle
    } else {
        twice_middle - 2 * sample
    };
    let d = 4 * off;
    let n = 1000 * twice_middle;
    vstd::arithmetic::div_mod::lemma_fundamental_div_mod(n, d);
    let q = n / d;
    assert(q * d <= n < (q + 1) * d) by (nonlinear_arith)
        requires
            n == d * (n / d) + n % d,
            0 <= n % d < d,
            q == n / d,
    ;
}

// ---------------------------------------------------------------- writing

/// A calibration that was measured is written for its camera and its channel; then the camera
/// is asked where it is, and that is reported with it.
pub proof fn law_measured_calibration_is_written(
    channel: u8,
    env: EnvironmentModel,
    device: DeviceModel,
    status: StatusModel,
    last: StatusModel,
    events: EventsModel,
    params: crate::model::CalibrationParamsModel,
    report: crate::model::CalibrationReportModel,
)
    requires
        events.device == Some(Ok::<DeviceModel, ErrorModel>(device)),
        events.status == Some(Ok::<StatusModel, ErrorModel>(status)),
        status.calibration_state != Some(2i64),
        events.measured == Some(
            Ok::<
                (crate::model::CalibrationParamsModel, crate::model::CalibrationReportModel),
                ErrorModel,
            >((params, report)),
        ),
        last.pan_position is Some && last.tilt_position is Some,
    ensures
        events.written is None ==> (calibration_step(channel, env, events)
            matches CalibrationStepModel::Write { path, stored } && path == calibration_path_of(
            env,
            device,
        ) && stored.calibration == params && stored.channel == channel && stored.camera_key
            == camera_key_of(device) && stored.schema_version == 2 && stored.source
            == "auto_measured"@),
        events.written == Some(Ok::<(), ErrorModel>(())) && events.last_status is None
            ==> calibration_step(channel, env, events) is AskLastStatus,
        events.written == Some(Ok::<(), ErrorModel>(())) && events.last_status == Some(
            Ok::<StatusModel, ErrorModel>(last),
        ) ==> (calibration_step(channel, env, events) matches CalibrationStepModel::Done(
            Ok(summary),
        ) && !summary.reused_existing && summary.calibration == params && summary.report == report
            && summary.channel == channel && summary.pan_count == last.pan_position->0
            && summary.tilt_count == last.tilt_position->0 && summary.camera_key == camera_key_of(
            device,
        )),
{
}

/// Once the ends are known and the axes are back, the models are fitted to the lengths of the
/// axes, and then the smallest movements are measured, pan before tilt.
pub proof fn law_last_steps_of_measuring(
    device: DeviceModel,
    status: StatusModel,
    done: MeasurementsModel,
    created_at: Seq<char>,
    pan: AxisMotion,
    tilt: AxisMotion,
    pan_ends: (i64, i64),
    tilt_ends: (i64, i64),
    fits: (EstimateModel, EstimateModel),
)
    requires
        status.pan_position is Some && status.tilt_position is Some,
        done.pan_motion == Some(Ok::<AxisMotion, ErrorModel>(pan)),
        done.tilt_motion == Some(Ok::<AxisMotion, ErrorModel>(tilt)),
        done.pan_ends == Some(Ok::<(i64, i64), ErrorModel>(pan_ends)),
        done.tilt_ends == Some(Ok::<(i64, i64), ErrorModel>(tilt_ends)),
        is_good(done.pan_restored),
        is_good(done.tilt_restored),
        pan_ends.0 <= pan_ends.1,
        tilt_ends.0 <= tilt_ends.1,
        fits.0.residual_p95_count <= 12,
        fits.1.residual_p95_count <= 8,
    ensures
        done.estimates is None ==> measure_step(device, status, done, created_at) == (
        MeasureModel::Fit {
            pan_span: pan_ends.1 - pan_ends.0,
            tilt_span: tilt_ends.1 - tilt_ends.0,
        }),
        done.estimates == Some(fits) && done.pan_deadband is None ==> measure_step(
            device,
            status,
            done,
            created_at,
        ) == (MeasureModel::Deadband {
            axis: AxisKind::Pan,
            motion: pan,
            span: pan_ends.1 - pan_ends.0,
        }),
        done.estimates == Some(fits) && done.pan_deadband is Some && done.tilt_deadband is None
            ==> measure_step(device, status, done, created_at) == (MeasureModel::Deadband {
            axis: AxisKind::Tilt,
            motion: tilt,
            span: tilt_ends.1 - tilt_ends.0,
        }),
{
    law_quality_of_both_axes(
        pan_ends.1 - pan_ends.0,
        tilt_ends.1 - tilt_ends.0,
        fits.0.residual_p95_count as int,
        fits.1.residual_p95_count as int,
    );
}

/// Where nothing could be measured, the usual ends of each axis are kept, with the usual models
/// and a smallest movement of six counts.
pub proof fn law_usual_calibration(
    device: DeviceModel,
    status: StatusModel,
    usual: crate::usecases::ptz_calibration::UsualModelsModel,
    pan: i64,
    tilt: i64,
)
    requires
        status.pan_range is None && status.tilt_range is None,
        status.pan_position == Some(pan) && status.tilt_position == Some(tilt),
        -1000000 <= pan <= 1000000,
        -1000000 <= tilt <= 1000000,
    ensures
        ({
            let kept = crate::usecases::ptz_calibration::heuristic_params(device, status, usual);
            &&& kept.pan_min_count == pan - 1800 && kept.pan_max_count == pan + 1800
            &&& kept.tilt_min_count == tilt - 900 && kept.tilt_max_count == tilt + 900
            &&& kept.pan_deadband_count == 6 && kept.tilt_deadband_count == 6
            &&& kept.pan_model == usual.pan_model && kept.tilt_model == usual.tilt_model
            &&& kept.serial_number == device.serial_number && kept.model == device.model
                && kept.firmware == device.firmware
            &&& kept.created_at == usual.created_at
        }),
{
    law_usual_ends_are_of_their_axis(status, pan, tilt);
}

} // verus!
