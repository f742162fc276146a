//! A calibration from its beginning to its end: what is asked of the camera, what is
//! measured in which order, and what is kept of it.
use crate::error::{result_model, AppError, AppResult, ErrorModel};
use crate::interfaces::runtime::{
    calibration_camera_key, calibration_file_path_for_camera, calibration_path_of, camera_key_of,
    Environment, EnvironmentModel,
};
use crate::model::{
    calibrated_state, AxisModel, AxisModelParams, CalibrationParams, CalibrationParamsModel,
    CalibrationReport, CalibrationReportModel, DeviceInfo, DeviceModel, NumericRange, PtzStatus,
    StatusModel,
};
use crate::text::{dec, dec_u64, join2, join3};
use crate::usecases::ptz_calibrate_auto::{
    accepts_saved_calibration, attempt_home_restore_on_failure, build_axis_count_range,
    can_reuse_saved_calibration, counts_of, heuristic_report, map_status_to_counts,
    plain_ends, quality_error, range_ends, restores_after, reused_report, size,
    validate_measured_calibration_quality, AxisCountRange, AxisKind, AxisMotion,
    DirectionalDeadband, HomeRestore, CALIBRATION_SCHEMA_VERSION, CALIBRATION_SOURCE_HEURISTIC,
    CALIBRATION_SOURCE_MEASURED, DEFAULT_DEADBAND_COUNT, DEFAULT_PAN_SPAN_UNITS,
    DEFAULT_TILT_SPAN_UNITS,
};
use vstd::prelude::*;

verus! {

// ---------------------------------------------------------------- what is kept

/// A calibration as it is kept: for which camera and channel, and how it came about.
#[derive(Debug)]
pub struct StoredCalibration {
    pub schema_version: u32,
    pub source: String,
    pub camera_key: String,
    pub channel: u8,
    pub calibration: CalibrationParams,
}

pub ghost struct StoredModel {
    pub schema_version: u32,
    pub source: Seq<char>,
    pub camera_key: Seq<char>,
    pub channel: u8,
    pub calibration: CalibrationParamsModel,
}

impl View for StoredCalibration {
    type V = StoredModel;

    open spec fn view(&self) -> StoredModel {
        StoredModel {
            schema_version: self.schema_version,
            source: self.source@,
            camera_key: self.camera_key@,
            channel: self.channel,
            calibration: self.calibration@,
        }
    }
}

impl StoredCalibration {
    /// A copy of what is kept.
    pub fn duplicate(&self) -> (r: Self)
        ensures
            r@ == self@,
    {
        StoredCalibration {
            schema_version: self.schema_version,
            source: self.source.clone(),
            camera_key: self.camera_key.clone(),
            channel: self.channel,
            calibration: self.calibration.duplicate(),
        }
    }
}

/// What a calibration comes to.
#[derive(Debug)]
pub struct PtzCalibrationReport {
    pub channel: u8,
    pub camera_key: String,
    pub calibration_path: String,
    pub reused_existing: bool,
    pub calibrated_state: Option<bool>,
    pub pan_count: i64,
    pub tilt_count: i64,
    pub params: StoredCalibration,
    pub calibration: CalibrationParams,
    pub report: CalibrationReport,
}

pub ghost struct CalibrationModel {
    pub channel: u8,
    pub camera_key: Seq<char>,
    pub calibration_path: Seq<char>,
    pub reused_existing: bool,
    pub calibrated_state: Option<bool>,
    pub pan_count: i64,
    pub tilt_count: i64,
    pub params: StoredModel,
    pub calibration: CalibrationParamsModel,
    pub report: CalibrationReportModel,
}

impl View for PtzCalibrationReport {
    type V = CalibrationModel;

    open spec fn view(&self) -> CalibrationModel {
        CalibrationModel {
            channel: self.channel,
            camera_key: self.camera_key@,
            calibration_path: self.calibration_path@,
            reused_existing: self.reused_existing,
            calibrated_state: self.calibrated_state,
            pan_count: self.pan_count,
            tilt_count: self.tilt_count,
            params: self.params@,
            calibration: self.calibration@,
            report: self.report@,
        }
    }
}

// ---------------------------------------------------------------- measuring

/// What a fit to the samples of an axis found. The share of the usual numbers in the model
/// is written with two digits.
#[derive(Debug)]
pub struct AxisModelEstimate {
    pub model: AxisModelParams,
    pub residual_p95_count: i64,
    pub fallback_blend_ratio: String,
    pub sample_count: usize,
}

pub ghost struct EstimateModel {
    pub model: AxisModel,
    pub residual_p95_count: i64,
    pub fallback_blend_ratio: Seq<char>,
    pub sample_count: usize,
}

impl View for AxisModelEstimate {
    type V = EstimateModel;

    open spec fn view(&self) -> EstimateModel {
        EstimateModel {
            model: self.model@,
            residual_p95_count: self.residual_p95_count,
            fallback_blend_ratio: self.fallback_blend_ratio@,
            sample_count: self.sample_count,
        }
    }
}

/// What came of each part of measuring, as far as it was done.
#[derive(Debug)]
pub struct Measurements {
    pub pan_motion: Option<AppResult<AxisMotion>>,
    pub tilt_motion: Option<AppResult<AxisMotion>>,
    pub pan_ends: Option<AppResult<(i64, i64)>>,
    pub tilt_ends: Option<AppResult<(i64, i64)>>,
    pub pan_restored: Option<AppResult<()>>,
    pub tilt_restored: Option<AppResult<()>>,
    pub estimates: Option<(AxisModelEstimate, AxisModelEstimate)>,
    pub pan_deadband: Option<AppResult<DirectionalDeadband>>,
    pub tilt_deadband: Option<AppResult<DirectionalDeadband>>,
}

pub ghost struct MeasurementsModel {
    pub pan_motion: Option<Result<AxisMotion, ErrorModel>>,
    pub tilt_motion: Option<Result<AxisMotion, ErrorModel>>,
    pub pan_ends: Option<Result<(i64, i64), ErrorModel>>,
    pub tilt_ends: Option<Result<(i64, i64), ErrorModel>>,
    pub pan_restored: Option<Result<(), ErrorModel>>,
    pub tilt_restored: Option<Result<(), ErrorModel>>,
    pub estimates: Option<(EstimateModel, EstimateModel)>,
    pub pan_deadband: Option<Result<DirectionalDeadband, ErrorModel>>,
    pub tilt_deadband: Option<Result<DirectionalDeadband, ErrorModel>>,
}

/// An outcome with its error taken by its view.
pub open spec fn outcome<T>(r: Option<AppResult<T>>) -> Option<Result<T, ErrorModel>> {
    match r {
        Some(Ok(value)) => Some(Ok(value)),
        Some(Err(error)) => Some(Err(error@)),
        None => None,
    }
}

impl View for Measurements {
    type V = MeasurementsModel;

    open spec fn view(&self) -> MeasurementsModel {
        MeasurementsModel {
            pan_motion: outcome(self.pan_motion),
            tilt_motion: outcome(self.tilt_motion),
            pan_ends: outcome(self.pan_ends),
            tilt_ends: outcome(self.tilt_ends),
            pan_restored: outcome(self.pan_restored),
            tilt_restored: outcome(self.tilt_restored),
            estimates: match self.estimates {
                Some((pan, tilt)) => Some((pan@, tilt@)),
                None => None,
            },
            pan_deadband: outcome(self.pan_deadband),
            tilt_deadband: outcome(self.tilt_deadband),
        }
    }
}

impl Measurements {
    /// Nothing was measured yet.
    pub fn new() -> (r: Self)
        ensures
            r@ == nothing_measured(),
    {
        Measurements {
            pan_motion: None,
            tilt_motion: None,
            pan_ends: None,
            tilt_ends: None,
            pan_restored: None,
            tilt_restored: None,
            estimates: None,
            pan_deadband: None,
            tilt_deadband: None,
        }
    }
}

pub open spec fn nothing_measured() -> MeasurementsModel {
    MeasurementsModel {
        pan_motion: None,
        tilt_motion: None,
        pan_ends: None,
        tilt_ends: None,
        pan_restored: None,
        tilt_restored: None,
        estimates: None,
        pan_deadband: None,
        tilt_deadband: None,
    }
}

/// The next part of measuring. At its end some axes may have to be brought back, and the
/// camera to be stopped.
#[derive(Debug)]
pub enum MeasureStep {
    Detect(AxisKind),
    Sweep { axis: AxisKind, motion: AxisMotion },
    Restore(HomeRestore),
    Fit { pan_span: u64, tilt_span: u64 },
    Deadband { axis: AxisKind, motion: AxisMotion, span: u64 },
    Done {
        restores: Vec<HomeRestore>,
        stops: bool,
        result: AppResult<(CalibrationParams, CalibrationReport)>,
    },
}

pub type MeasuredModel = Result<(CalibrationParamsModel, CalibrationReportModel), ErrorModel>;

pub ghost enum MeasureModel {
    Detect(AxisKind),
    Sweep { axis: AxisKind, motion: AxisMotion },
    Restore(HomeRestore),
    Fit { pan_span: int, tilt_span: int },
    Deadband { axis: AxisKind, motion: AxisMotion, span: int },
    Done { restores: Seq<HomeRestore>, stops: bool, result: MeasuredModel },
}

pub open spec fn measured_model(
    r: AppResult<(CalibrationParams, CalibrationReport)>,
) -> MeasuredModel {
    match r {
        Ok((params, report)) => Ok((params@, report@)),
        Err(error) => Err(error@),
    }
}

impl View for MeasureStep {
    type V = MeasureModel;

    open spec fn view(&self) -> MeasureModel {
        match *self {
            MeasureStep::Detect(axis) => MeasureModel::Detect(axis),
            MeasureStep::Sweep { axis, motion } => MeasureModel::Sweep { axis, motion },
            MeasureStep::Restore(restore) => MeasureModel::Restore(restore),
            MeasureStep::Fit { pan_span, tilt_span } => MeasureModel::Fit {
                pan_span: pan_span as int,
                tilt_span: tilt_span as int,
            },
            MeasureStep::Deadband { axis, motion, span } => MeasureModel::Deadband {
                axis,
                motion,
                span: span as int,
            },
            MeasureStep::Done { restores, stops, result } => MeasureModel::Done {
                restores: restores@,
                stops,
                result: measured_model(result),
            },
        }
    }
}

/// How far the ends of an axis are apart.
pub open spec fn span_of(ends: (i64, i64)) -> int {
    size(ends.1 - ends.0)
}

/// The usual smallest movements.
pub open spec fn usual_deadband() -> DirectionalDeadband {
    DirectionalDeadband {
        increase_count: DEFAULT_DEADBAND_COUNT,
        decrease_count: DEFAULT_DEADBAND_COUNT,
    }
}

/// The smallest movements that were measured, or the usual ones.
pub open spec fn deadband_or_usual(
    measured: Result<DirectionalDeadband, ErrorModel>,
) -> DirectionalDeadband {
    match measured {
        Ok(deadband) => deadband,
        Err(_) => usual_deadband(),
    }
}

/// The larger of the smallest movements.
pub open spec fn larger_count(deadband: DirectionalDeadband) -> i64 {
    if deadband.increase_count >= deadband.decrease_count {
        deadband.increase_count
    } else {
        deadband.decrease_count
    }
}

/// The calibration of a camera with the given ends, smallest movements and models.
pub open spec fn params_of(
    device: DeviceModel,
    pan_ends: (i64, i64),
    tilt_ends: (i64, i64),
    pan_deadband: DirectionalDeadband,
    tilt_deadband: DirectionalDeadband,
    models: (AxisModel, AxisModel),
    created_at: Seq<char>,
) -> CalibrationParamsModel {
    CalibrationParamsModel {
        serial_number: device.serial_number,
        model: device.model,
        firmware: device.firmware,
        pan_min_count: pan_ends.0,
        pan_max_count: pan_ends.1,
        pan_deadband_count: larger_count(pan_deadband),
        pan_deadband_increase_count: Some(pan_deadband.increase_count),
        pan_deadband_decrease_count: Some(pan_deadband.decrease_count),
        tilt_min_count: tilt_ends.0,
        tilt_max_count: tilt_ends.1,
        tilt_deadband_count: larger_count(tilt_deadband),
        tilt_deadband_increase_count: Some(tilt_deadband.increase_count),
        tilt_deadband_decrease_count: Some(tilt_deadband.decrease_count),
        pan_model: models.0,
        tilt_model: models.1,
        created_at,
    }
}

/// What is reported of a calibration that was measured.
pub open spec fn measured_report(pan: EstimateModel, tilt: EstimateModel) -> CalibrationReportModel {
    CalibrationReportModel {
        samples: if pan.sample_count >= tilt.sample_count {
            pan.sample_count
        } else {
            tilt.sample_count
        },
        pan_error_p95_count: pan.residual_p95_count,
        tilt_error_p95_count: tilt.residual_p95_count,
        notes: "created_from_measured_sweep; pan_samples="@ + dec(pan.sample_count as nat)
            + "; tilt_samples="@ + dec(tilt.sample_count as nat) + "; pan_blend="@
            + pan.fallback_blend_ratio + "; tilt_blend="@ + tilt.fallback_blend_ratio,
    }
}

/// Measuring failed: the axes whose directions are known are brought back, and the camera
/// is stopped.
pub open spec fn measuring_failed(
    home: (i64, i64),
    pan_motion: Option<AxisMotion>,
    tilt_motion: Option<AxisMotion>,
    error: ErrorModel,
) -> MeasureModel {
    MeasureModel::Done {
        restores: restores_after(false, home.0, home.1, pan_motion, tilt_motion),
        stops: true,
        result: Err(error),
    }
}

/// Measuring the directions of the axes, then their ends and how they move.
pub open spec fn measure_step(
    device: DeviceModel,
    status: StatusModel,
    done: MeasurementsModel,
    created_at: Seq<char>,
) -> MeasureModel {
    match counts_of(status) {
        Err(error) => MeasureModel::Done {
            restores: Seq::empty(),
            stops: false,
            result: Err(error),
        },
        Ok(home) => match done.pan_motion {
            None => MeasureModel::Detect(AxisKind::Pan),
            Some(Err(error)) => measuring_failed(home, None, None, error),
            Some(Ok(pan)) => match done.tilt_motion {
                None => MeasureModel::Detect(AxisKind::Tilt),
                Some(Err(error)) => measuring_failed(home, Some(pan), None, error),
                Some(Ok(tilt)) => sweep_step(device, home, (pan, tilt), done, created_at),
            },
        },
    }
}

/// Measuring the ends of the axes. After that both are brought back.
pub open spec fn sweep_step(
    device: DeviceModel,
    home: (i64, i64),
    motions: (AxisMotion, AxisMotion),
    done: MeasurementsModel,
    created_at: Seq<char>,
) -> MeasureModel {
    let failed = |error: ErrorModel|
        measuring_failed(home, Some(motions.0), Some(motions.1), error);
    match done.pan_ends {
        None => MeasureModel::Sweep { axis: AxisKind::Pan, motion: motions.0 },
        Some(Err(error)) => failed(error),
        Some(Ok(pan_ends)) => match done.tilt_ends {
            None => MeasureModel::Sweep { axis: AxisKind::Tilt, motion: motions.1 },
            Some(Err(error)) => failed(error),
            Some(Ok(tilt_ends)) => match done.pan_restored {
                None => MeasureModel::Restore(
                    HomeRestore {
                        axis: AxisKind::Pan,
                        home_position: home.0,
                        motion: motions.0,
                    },
                ),
                Some(Err(error)) => failed(error),
                Some(Ok(_)) => match done.tilt_restored {
                    None => MeasureModel::Restore(
                        HomeRestore {
                            axis: AxisKind::Tilt,
                            home_position: home.1,
                            motion: motions.1,
                        },
                    ),
                    Some(Err(error)) => failed(error),
                    Some(Ok(_)) => fit_step(
                        device,
                        home,
                        motions,
                        (pan_ends, tilt_ends),
                        done,
                        created_at,
                    ),
                },
            },
        },
    }
}

/// Fitting models to the samples, which must be good enough, and measuring the smallest
/// movements. Where these cannot be measured, the usual ones stand for them.
pub open spec fn fit_step(
    device: DeviceModel,
    home: (i64, i64),
    motions: (AxisMotion, AxisMotion),
    ends: ((i64, i64), (i64, i64)),
    done: MeasurementsModel,
    created_at: Seq<char>,
) -> MeasureModel {
    let pan_span = span_of(ends.0);
    let tilt_span = span_of(ends.1);
    match done.estimates {
        None => MeasureModel::Fit { pan_span, tilt_span },
        Some((pan, tilt)) => match quality_error(
            pan_span,
            tilt_span,
            pan.residual_p95_count as int,
            tilt.residual_p95_count as int,
        ) {
            Some(error) => measuring_failed(home, Some(motions.0), Some(motions.1), error),
            None => match done.pan_deadband {
                None => MeasureModel::Deadband {
                    axis: AxisKind::Pan,
                    motion: motions.0,
                    span: pan_span,
                },
                Some(pan_deadband) => match done.tilt_deadband {
                    None => MeasureModel::Deadband {
                        axis: AxisKind::Tilt,
                        motion: motions.1,
                        span: tilt_span,
                    },
                    Some(tilt_deadband) => MeasureModel::Done {
                        restores: Seq::empty(),
                        stops: true,
                        result: Ok(
                            (
                                params_of(
                                    device,
                                    ends.0,
                                    ends.1,
                                    deadband_or_usual(pan_deadband),
                                    deadband_or_usual(tilt_deadband),
                                    (pan.model, tilt.model),
                                    created_at,
                                ),
                                measured_report(pan, tilt),
                            ),
                        ),
                    },
                },
            },
        },
    }
}

fn span_between(ends: (i64, i64)) -> (r: u64)
    ensures
        r == span_of(ends),
{
    if ends.1 >= ends.0 {
        (ends.1 as i128 - ends.0 as i128) as u64
    } else {
        (ends.0 as i128 - ends.1 as i128) as u64
    }
}

fn known_deadband(measured: &AppResult<DirectionalDeadband>) -> (r: DirectionalDeadband)
    ensures
        outcome(Some(*measured)) matches Some(model) && r == deadband_or_usual(model),
{
    match measured {
        Ok(deadband) => *deadband,
        Err(_) => DirectionalDeadband::uniform(DEFAULT_DEADBAND_COUNT),
    }
}

fn build_params(
    device: &DeviceInfo,
    pan_ends: (i64, i64),
    tilt_ends: (i64, i64),
    pan_deadband: DirectionalDeadband,
    tilt_deadband: DirectionalDeadband,
    pan_model: &AxisModelParams,
    tilt_model: &AxisModelParams,
    created_at: &str,
) -> (r: CalibrationParams)
    ensures
        r@ == params_of(
            device@,
            pan_ends,
            tilt_ends,
            pan_deadband,
            tilt_deadband,
            (pan_model@, tilt_model@),
            created_at@,
        ),
{
    CalibrationParams {
        serial_number: device.serial_number.clone(),
        model: device.model.clone(),
        firmware: device.firmware.clone(),
        pan_min_count: pan_ends.0,
        pan_max_count: pan_ends.1,
        pan_deadband_count: pan_deadband.compatibility_count(),
        pan_deadband_increase_count: Some(pan_deadband.increase_count),
        pan_deadband_decrease_count: Some(pan_deadband.decrease_count),
        tilt_min_count: tilt_ends.0,
        tilt_max_count: tilt_ends.1,
        tilt_deadband_count: tilt_deadband.compatibility_count(),
        tilt_deadband_increase_count: Some(tilt_deadband.increase_count),
        tilt_deadband_decrease_count: Some(tilt_deadband.decrease_count),
        pan_model: pan_model.duplicate(),
        tilt_model: tilt_model.duplicate(),
        created_at: created_at.to_owned(),
    }
}

fn build_measured_report(pan: &AxisModelEstimate, tilt: &AxisModelEstimate) -> (r: CalibrationReport)
    ensures
        r@ == measured_report(pan@, tilt@),
{
    let pan_samples = dec_u64(pan.sample_count as u64);
    let tilt_samples = dec_u64(tilt.sample_count as u64);
    let t = join3(
        "created_from_measured_sweep; pan_samples=",
        pan_samples.as_str(),
        "; tilt_samples=",
    );
    let t = join3(t.as_str(), tilt_samples.as_str(), "; pan_blend=");
    let t = join3(t.as_str(), pan.fallback_blend_ratio.as_str(), "; tilt_blend=");
    CalibrationReport {
        samples: if pan.sample_count >= tilt.sample_count {
            pan.sample_count
        } else {
            tilt.sample_count
        },
        pan_error_p95_count: pan.residual_p95_count,
        tilt_error_p95_count: tilt.residual_p95_count,
        notes: join2(t.as_str(), tilt.fallback_blend_ratio.as_str()),
    }
}

fn fail_measuring(
    home: (i64, i64),
    pan_motion: Option<AxisMotion>,
    tilt_motion: Option<AxisMotion>,
    error: &AppError,
) -> (r: MeasureStep)
    ensures
        r@ == measuring_failed(home, pan_motion, tilt_motion, error@),
{
    MeasureStep::Done {
        restores: attempt_home_restore_on_failure(false, home.0, home.1, pan_motion, tilt_motion),
        stops: true,
        result: Err(error.duplicate()),
    }
}

fn sweep_and_restore(
    device: &DeviceInfo,
    home: (i64, i64),
    motions: (AxisMotion, AxisMotion),
    done: &Measurements,
    created_at: &str,
) -> (r: MeasureStep)
    ensures
        r@ == sweep_step(device@, home, motions, done@, created_at@),
{
    let pan_ends: (i64, i64) = match &done.pan_ends {
        None => {
            return MeasureStep::Sweep { axis: AxisKind::Pan, motion: motions.0 };
        },
        Some(Err(error)) => {
            return fail_measuring(home, Some(motions.0), Some(motions.1), error);
        },
        Some(Ok(ends)) => *ends,
    };
    let tilt_ends: (i64, i64) = match &done.tilt_ends {
        None => {
            return MeasureStep::Sweep { axis: AxisKind::Tilt, motion: motions.1 };
        },
        Some(Err(error)) => {
            return fail_measuring(home, Some(motions.0), Some(motions.1), error);
        },
        Some(Ok(ends)) => *ends,
    };
    match &done.pan_restored {
        None => {
            return MeasureStep::Restore(
                HomeRestore { axis: AxisKind::Pan, home_position: home.0, motion: motions.0 },
            );
        },
        Some(Err(error)) => {
            return fail_measuring(home, Some(motions.0), Some(motions.1), error);
        },
        Some(Ok(_)) => {},
    }
    match &done.tilt_restored {
        None => {
            return MeasureStep::Restore(
                HomeRestore { axis: AxisKind::Tilt, home_position: home.1, motion: motions.1 },
            );
        },
        Some(Err(error)) => {
            return fail_measuring(home, Some(motions.0), Some(motions.1), error);
        },
        Some(Ok(_)) => {},
    }
    fit_and_probe(device, home, motions, (pan_ends, tilt_ends), done, created_at)
}

fn fit_and_probe(
    device: &DeviceInfo,
    home: (i64, i64),
    motions: (AxisMotion, AxisMotion),
    ends: ((i64, i64), (i64, i64)),
    done: &Measurements,
    created_at: &str,
) -> (r: MeasureStep)
    ensures
        r@ == fit_step(device@, home, motions, ends, done@, created_at@),
{
    let pan_span: u64 = span_between(ends.0);
    let tilt_span: u64 = span_between(ends.1);
    let (pan, tilt) = match &done.estimates {
        None => {
            return MeasureStep::Fit { pan_span, tilt_span };
        },
        Some((pan, tilt)) => (pan, tilt),
    };
    match validate_measured_calibration_quality(
        pan_span,
        tilt_span,
        pan.residual_p95_count,
        tilt.residual_p95_count,
    ) {
        Err(error) => {
            return fail_measuring(home, Some(motions.0), Some(motions.1), &error);
        },
        Ok(_) => {},
    }
    let pan_deadband = match &done.pan_deadband {
        None => {
            return MeasureStep::Deadband {
                axis: AxisKind::Pan,
                motion: motions.0,
                span: pan_span,
            };
        },
        Some(measured) => known_deadband(measured),
    };
    let tilt_deadband = match &done.tilt_deadband {
        None => {
            return MeasureStep::Deadband {
                axis: AxisKind::Tilt,
                motion: motions.1,
                span: tilt_span,
            };
        },
        Some(measured) => known_deadband(measured),
    };
    let params = build_params(
        device,
        ends.0,
        ends.1,
        pan_deadband,
        tilt_deadband,
        &pan.model,
        &tilt.model,
        created_at,
    );
    MeasureStep::Done {
        restores: Vec::new(),
        stops: true,
        result: Ok((params, build_measured_report(pan, tilt))),
    }
}

/// Measures a camera, given what came of the parts that were done.
pub fn try_build_measured_calibration(
    device_info: &DeviceInfo,
    status: &PtzStatus,
    done: &Measurements,
    created_at: &str,
) -> (r: MeasureStep)
    ensures
        r@ == measure_step(device_info@, status@, done@, created_at@),
{
    let home: (i64, i64) = match map_status_to_counts(status) {
        Err(error) => {
            return MeasureStep::Done { restores: Vec::new(), stops: false, result: Err(error) };
        },
        Ok(counts) => counts,
    };
    let pan_motion = match &done.pan_motion {
        None => {
            return MeasureStep::Detect(AxisKind::Pan);
        },
        Some(Err(error)) => {
            return fail_measuring(home, None, None, error);
        },
        Some(Ok(motion)) => *motion,
    };
    let tilt_motion = match &done.tilt_motion {
        None => {
            return MeasureStep::Detect(AxisKind::Tilt);
        },
        Some(Err(error)) => {
            return fail_measuring(home, Some(pan_motion), None, error);
        },
        Some(Ok(motion)) => *motion,
    };
    sweep_and_restore(device_info, home, (pan_motion, tilt_motion), done, created_at)
}

// ---------------------------------------------------------------- without measuring

/// The models of a camera that was not measured, and when they were made.
#[derive(Debug)]
pub struct UsualModels {
    pub pan_model: AxisModelParams,
    pub tilt_model: AxisModelParams,
    pub created_at: String,
}

pub ghost struct UsualModelsModel {
    pub pan_model: AxisModel,
    pub tilt_model: AxisModel,
    pub created_at: Seq<char>,
}

impl View for UsualModels {
    type V = UsualModelsModel;

    open spec fn view(&self) -> UsualModelsModel {
        UsualModelsModel {
            pan_model: self.pan_model@,
            tilt_model: self.tilt_model@,
            created_at: self.created_at@,
        }
    }
}

/// The ends of the pan axis of a camera that was not measured.
pub open spec fn usual_pan_ends(status: StatusModel) -> (int, int) {
    range_ends(status.pan_range, status.pan_position, DEFAULT_PAN_SPAN_UNITS as int)
}

/// The ends of the tilt axis of a camera that was not measured.
pub open spec fn usual_tilt_ends(status: StatusModel) -> (int, int) {
    range_ends(status.tilt_range, status.tilt_position, DEFAULT_TILT_SPAN_UNITS as int)
}

pub open spec fn ends_are_counts(ends: (int, int)) -> bool {
    i64::MIN <= ends.0 && ends.1 <= i64::MAX
}

/// The usual ends of the axes are counts.
pub open spec fn has_usual_ends(status: StatusModel) -> bool {
    &&& ends_are_counts(
        plain_ends(status.pan_range, status.pan_position, DEFAULT_PAN_SPAN_UNITS as int),
    )
    &&& ends_are_counts(
        plain_ends(status.tilt_range, status.tilt_position, DEFAULT_TILT_SPAN_UNITS as int),
    )
}

fn are_counts(
    range: Option<NumericRange>,
    current_position: Option<i64>,
    default_span_count: i64,
) -> (r: bool)
    requires
        default_span_count >= 2,
    ensures
        r == ends_are_counts(plain_ends(range, current_position, default_span_count as int)),
{
    match range {
        Some(known) => known.max > known.min || known.min < i64::MAX,
        None => {
            let center: i128 = match current_position {
                Some(count) => count as i128,
                None => 0,
            };
            let half: i128 = (default_span_count / 2) as i128;
            i64::MIN as i128 <= center - half && center + half <= i64::MAX as i128
        },
    }
}

/// Whether the usual ends of the axes are counts.
pub fn usual_ends_are_counts(status: &PtzStatus) -> (r: bool)
    ensures
        r == has_usual_ends(status@),
{
    are_counts(status.pan_range, status.pan_position, DEFAULT_PAN_SPAN_UNITS) && are_counts(
        status.tilt_range,
        status.tilt_position,
        DEFAULT_TILT_SPAN_UNITS,
    )
}

/// The calibration of a camera that was not measured.
pub open spec fn heuristic_params(
    device: DeviceModel,
    status: StatusModel,
    usual: UsualModelsModel,
) -> CalibrationParamsModel {
    let pan = usual_pan_ends(status);
    let tilt = usual_tilt_ends(status);
    params_of(
        device,
        (pan.0 as i64, pan.1 as i64),
        (tilt.0 as i64, tilt.1 as i64),
        usual_deadband(),
        usual_deadband(),
        (usual.pan_model, usual.tilt_model),
        usual.created_at,
    )
}

fn usual_range(
    range: Option<NumericRange>,
    current_position: Option<i64>,
    default_span_count: i64,
) -> (r: AxisCountRange)
    requires
        ends_are_counts(plain_ends(range, current_position, default_span_count as int)),
    ensures
        (r.min_count as int, r.max_count as int) == range_ends(
            range,
            current_position,
            default_span_count as int,
        ),
{
    match range {
        Some(known) => build_axis_count_range(Some(&known), current_position, default_span_count),
        None => build_axis_count_range(None, current_position, default_span_count),
    }
}

/// The calibration of a camera that could not be measured.
pub fn build_heuristic_calibration(
    device_info: &DeviceInfo,
    status: &PtzStatus,
    usual: &UsualModels,
) -> (r: CalibrationParams)
    requires
        has_usual_ends(status@),
    ensures
        r@ == heuristic_params(device_info@, status@, usual@),
{
    let pan = usual_range(status.pan_range, status.pan_position, DEFAULT_PAN_SPAN_UNITS);
    let tilt = usual_range(status.tilt_range, status.tilt_position, DEFAULT_TILT_SPAN_UNITS);
    let deadband = DirectionalDeadband::uniform(DEFAULT_DEADBAND_COUNT);
    build_params(
        device_info,
        (pan.min_count, pan.max_count),
        (tilt.min_count, tilt.max_count),
        deadband,
        deadband,
        &usual.pan_model,
        &usual.tilt_model,
        usual.created_at.as_str(),
    )
}

// ---------------------------------------------------------------- a calibration

/// What is known so far of a camera that is being calibrated.
#[derive(Debug)]
pub struct CalibrationEvents {
    pub device: Option<AppResult<DeviceInfo>>,
    pub status: Option<AppResult<PtzStatus>>,
    /// What the file of the camera holds, where it holds a calibration.
    pub saved: Option<AppResult<Option<StoredCalibration>>>,
    pub measured: Option<AppResult<(CalibrationParams, CalibrationReport)>>,
    pub usual: Option<UsualModels>,
    pub written: Option<AppResult<()>>,
    /// The status after all movements.
    pub last_status: Option<AppResult<PtzStatus>>,
}

pub ghost struct EventsModel {
    pub device: Option<Result<DeviceModel, ErrorModel>>,
    pub status: Option<Result<StatusModel, ErrorModel>>,
    pub saved: Option<Result<Option<StoredModel>, ErrorModel>>,
    pub measured: Option<MeasuredModel>,
    pub usual: Option<UsualModelsModel>,
    pub written: Option<Result<(), ErrorModel>>,
    pub last_status: Option<Result<StatusModel, ErrorModel>>,
}

/// An outcome with its value and its error taken by their views.
pub open spec fn viewed<T: View>(r: Option<AppResult<T>>) -> Option<Result<T::V, ErrorModel>> {
    match r {
        Some(Ok(value)) => Some(Ok(value@)),
        Some(Err(error)) => Some(Err(error@)),
        None => None,
    }
}

impl View for CalibrationEvents {
    type V = EventsModel;

    open spec fn view(&self) -> EventsModel {
        EventsModel {
            device: viewed(self.device),
            status: viewed(self.status),
            saved: match self.saved {
                Some(Ok(Some(stored))) => Some(Ok(Some(stored@))),
                Some(Ok(None)) => Some(Ok(None)),
                Some(Err(error)) => Some(Err(error@)),
                None => None,
            },
            measured: match self.measured {
                Some(result) => Some(measured_model(result)),
                None => None,
            },
            usual: match self.usual {
                Some(models) => Some(models@),
                None => None,
            },
            written: outcome(self.written),
            last_status: viewed(self.last_status),
        }
    }
}

impl CalibrationEvents {
    /// Nothing is known yet.
    pub fn new() -> (r: Self)
        ensures
            r@ == nothing_known(),
    {
        CalibrationEvents {
            device: None,
            status: None,
            saved: None,
            measured: None,
            usual: None,
            written: None,
            last_status: None,
        }
    }
}

pub open spec fn nothing_known() -> EventsModel {
    EventsModel {
        device: None,
        status: None,
        saved: None,
        measured: None,
        usual: None,
        written: None,
        last_status: None,
    }
}

/// The next step of a calibration.
#[derive(Debug)]
pub enum CalibrationStep {
    AskDevice,
    AskStatus,
    ReadSaved { path: String },
    Measure,
    /// The usual models for axes of these lengths are needed.
    UsualModels { pan_span: u64, tilt_span: u64 },
    Write { path: String, stored: StoredCalibration },
    AskLastStatus,
    Done(AppResult<PtzCalibrationReport>),
}

pub ghost enum CalibrationStepModel {
    AskDevice,
    AskStatus,
    ReadSaved { path: Seq<char> },
    Measure,
    UsualModels { pan_span: int, tilt_span: int },
    Write { path: Seq<char>, stored: StoredModel },
    AskLastStatus,
    Done(Result<CalibrationModel, ErrorModel>),
}

impl View for CalibrationStep {
    type V = CalibrationStepModel;

    open spec fn view(&self) -> CalibrationStepModel {
        match *self {
            CalibrationStep::AskDevice => CalibrationStepModel::AskDevice,
            CalibrationStep::AskStatus => CalibrationStepModel::AskStatus,
            CalibrationStep::ReadSaved { path } => CalibrationStepModel::ReadSaved { path: path@ },
            CalibrationStep::Measure => CalibrationStepModel::Measure,
            CalibrationStep::UsualModels { pan_span, tilt_span } =>
                CalibrationStepModel::UsualModels {
                pan_span: pan_span as int,
                tilt_span: tilt_span as int,
            },
            CalibrationStep::Write { path, stored } => CalibrationStepModel::Write {
                path: path@,
                stored: stored@,
            },
            CalibrationStep::AskLastStatus => CalibrationStepModel::AskLastStatus,
            CalibrationStep::Done(result) => CalibrationStepModel::Done(result_model(result)),
        }
    }
}

/// A saved calibration that stands for the camera and the channel.
pub open spec fn reusable(
    channel: u8,
    device: DeviceModel,
    status: StatusModel,
    saved: Option<StoredModel>,
) -> bool {
    match saved {
        Some(stored) => {
            &&& stored.schema_version == CALIBRATION_SCHEMA_VERSION
            &&& stored.camera_key == camera_key_of(device)
            &&& stored.channel == channel
            &&& calibrated_state(status) == Some(true)
        },
        None => false,
    }
}

/// What a calibration comes to, with the camera where the status says it is.
pub open spec fn reported(
    channel: u8,
    path: Seq<char>,
    reused_existing: bool,
    status: StatusModel,
    params: StoredModel,
    report: CalibrationReportModel,
) -> Result<CalibrationModel, ErrorModel> {
    match counts_of(status) {
        Err(error) => Err(error),
        Ok((pan_count, tilt_count)) => Ok(
            CalibrationModel {
                channel,
                camera_key: params.camera_key,
                calibration_path: path,
                reused_existing,
                calibrated_state: calibrated_state(status),
                pan_count,
                tilt_count,
                params,
                calibration: params.calibration,
                report,
            },
        ),
    }
}

pub open spec fn plain_report(notes: Seq<char>) -> CalibrationReportModel {
    CalibrationReportModel {
        samples: 1,
        pan_error_p95_count: 0,
        tilt_error_p95_count: 0,
        notes,
    }
}

/// A saved calibration is used again where it stands for the camera and the channel. Else
/// the camera is calibrated anew.
pub open spec fn calibration_step(
    channel: u8,
    env: EnvironmentModel,
    events: EventsModel,
) -> CalibrationStepModel {
    match events.device {
        None => CalibrationStepModel::AskDevice,
        Some(Err(error)) => CalibrationStepModel::Done(Err(error)),
        Some(Ok(device)) => match events.status {
            None => CalibrationStepModel::AskStatus,
            Some(Err(error)) => CalibrationStepModel::Done(Err(error)),
            Some(Ok(status)) => {
                let path = calibration_path_of(env, device);
                let anew = anew_step(channel, path, device, status, events);
                if calibrated_state(status) == Some(true) {
                    match events.saved {
                        None => CalibrationStepModel::ReadSaved { path },
                        Some(Err(error)) => CalibrationStepModel::Done(Err(error)),
                        Some(Ok(saved)) => if reusable(channel, device, status, saved) {
                            CalibrationStepModel::Done(
                                reported(
                                    channel,
                                    path,
                                    true,
                                    status,
                                    saved.unwrap(),
                                    plain_report("reused_saved_params"@),
                                ),
                            )
                        } else {
                            anew
                        },
                    }
                } else {
                    anew
                }
            },
        },
    }
}

/// A camera is measured. Where that fails, it gets the usual calibration.
pub open spec fn anew_step(
    channel: u8,
    path: Seq<char>,
    device: DeviceModel,
    status: StatusModel,
    events: EventsModel,
) -> CalibrationStepModel {
    match events.measured {
        None => CalibrationStepModel::Measure,
        Some(Ok((params, report))) => keep_step(
            channel,
            path,
            status,
            StoredModel {
                schema_version: CALIBRATION_SCHEMA_VERSION,
                source: CALIBRATION_SOURCE_MEASURED@,
                camera_key: camera_key_of(device),
                channel,
                calibration: params,
            },
            report,
            events,
        ),
        Some(Err(error)) => match events.usual {
            None => {
                let pan = usual_pan_ends(status);
                let tilt = usual_tilt_ends(status);
                CalibrationStepModel::UsualModels {
                    pan_span: size(pan.1 - pan.0),
                    tilt_span: size(tilt.1 - tilt.0),
                }
            },
            Some(usual) => keep_step(
                channel,
                path,
                status,
                StoredModel {
                    schema_version: CALIBRATION_SCHEMA_VERSION,
                    source: CALIBRATION_SOURCE_HEURISTIC@,
                    camera_key: camera_key_of(device),
                    channel,
                    calibration: heuristic_params(device, status, usual),
                },
                plain_report("fallback_to_heuristic: "@ + error.message),
                events,
            ),
        },
    }
}

/// A new calibration is written to the file of the camera. What is reported is where the
/// camera is after that, or where it was before.
pub open spec fn keep_step(
    channel: u8,
    path: Seq<char>,
    status: StatusModel,
    stored: StoredModel,
    report: CalibrationReportModel,
    events: EventsModel,
) -> CalibrationStepModel {
    match events.written {
        None => CalibrationStepModel::Write { path, stored },
        Some(Err(error)) => CalibrationStepModel::Done(Err(error)),
        Some(Ok(_)) => match events.last_status {
            None => CalibrationStepModel::AskLastStatus,
            Some(Ok(last)) => CalibrationStepModel::Done(
                reported(channel, path, false, last, stored, report),
            ),
            Some(Err(_)) => CalibrationStepModel::Done(
                reported(channel, path, false, status, stored, report),
            ),
        },
    }
}

fn build_report(
    channel: u8,
    path: String,
    reused_existing: bool,
    status: &PtzStatus,
    params: StoredCalibration,
    report: CalibrationReport,
) -> (r: AppResult<PtzCalibrationReport>)
    ensures
        result_model(r) == reported(
            channel,
            path@,
            reused_existing,
            status@,
            params@,
            report@,
        ),
{
    match map_status_to_counts(status) {
        Err(error) => Err(error),
        Ok((pan_count, tilt_count)) => {
            let calibration = params.calibration.duplicate();
            Ok(
                PtzCalibrationReport {
                    channel,
                    camera_key: params.camera_key.clone(),
                    calibration_path: path,
                    reused_existing,
                    calibrated_state: status.calibrated(),
                    pan_count,
                    tilt_count,
                    params,
                    calibration,
                    report,
                },
            )
        },
    }
}

fn keep_calibration(
    channel: u8,
    path: String,
    status: &PtzStatus,
    stored: StoredCalibration,
    report: CalibrationReport,
    events: &CalibrationEvents,
) -> (r: CalibrationStep)
    ensures
        r@ == keep_step(channel, path@, status@, stored@, report@, events@),
{
    match &events.written {
        None => CalibrationStep::Write { path, stored },
        Some(Err(error)) => CalibrationStep::Done(Err(error.duplicate())),
        Some(Ok(_)) => match &events.last_status {
            None => CalibrationStep::AskLastStatus,
            Some(Ok(last)) => CalibrationStep::Done(
                build_report(channel, path, false, last, stored, report),
            ),
            Some(Err(_)) => CalibrationStep::Done(
                build_report(channel, path, false, status, stored, report),
            ),
        },
    }
}

fn calibrate_anew(
    channel: u8,
    path: String,
    device: &DeviceInfo,
    status: &PtzStatus,
    events: &CalibrationEvents,
) -> (r: CalibrationStep)
    requires
        events@.measured matches Some(Err(_)) ==> has_usual_ends(status@),
    ensures
        r@ == anew_step(channel, path@, device@, status@, events@),
{
    match &events.measured {
        None => CalibrationStep::Measure,
        Some(Ok((params, report))) => {
            let stored = StoredCalibration {
                schema_version: CALIBRATION_SCHEMA_VERSION,
                source: CALIBRATION_SOURCE_MEASURED.to_owned(),
                camera_key: calibration_camera_key(device),
                channel,
                calibration: params.duplicate(),
            };
            keep_calibration(channel, path, status, stored, report.duplicate(), events)
        },
        Some(Err(error)) => match &events.usual {
            None => {
                let pan = usual_range(
                    status.pan_range,
                    status.pan_position,
                    DEFAULT_PAN_SPAN_UNITS,
                );
                let tilt = usual_range(
                    status.tilt_range,
                    status.tilt_position,
                    DEFAULT_TILT_SPAN_UNITS,
                );
                CalibrationStep::UsualModels {
                    pan_span: span_between((pan.min_count, pan.max_count)),
                    tilt_span: span_between((tilt.min_count, tilt.max_count)),
                }
            },
            Some(usual) => {
                let stored = StoredCalibration {
                    schema_version: CALIBRATION_SCHEMA_VERSION,
                    source: CALIBRATION_SOURCE_HEURISTIC.to_owned(),
                    camera_key: calibration_camera_key(device),
                    channel,
                    calibration: build_heuristic_calibration(device, status, usual),
                };
                keep_calibration(channel, path, status, stored, heuristic_report(error), events)
            },
        },
    }
}

/// Calibrates a camera, given what is known so far. Where measuring failed, the usual ends of
/// its axes must be counts.
pub fn execute(channel: u8, env: &Environment, events: &CalibrationEvents) -> (r: CalibrationStep)
    requires
        events@.measured matches Some(Err(_)) ==> (events@.status matches Some(Ok(status))
            ==> has_usual_ends(status)),
    ensures
        r@ == calibration_step(channel, env@, events@),
{
    let device = match &events.device {
        None => {
            return CalibrationStep::AskDevice;
        },
        Some(Err(error)) => {
            return CalibrationStep::Done(Err(error.duplicate()));
        },
        Some(Ok(device)) => device,
    };
    let status = match &events.status {
        None => {
            return CalibrationStep::AskStatus;
        },
        Some(Err(error)) => {
            return CalibrationStep::Done(Err(error.duplicate()));
        },
        Some(Ok(status)) => status,
    };
    let path = calibration_file_path_for_camera(env, device);
    match status.calibrated() {
        Some(true) => match &events.saved {
            None => CalibrationStep::ReadSaved { path },
            Some(Err(error)) => CalibrationStep::Done(Err(error.duplicate())),
            Some(Ok(None)) => calibrate_anew(channel, path, device, status, events),
            Some(Ok(Some(saved))) => if accepts_saved_calibration(
                saved.schema_version,
                saved.camera_key.as_str(),
                device,
            ) && can_reuse_saved_calibration(status, channel, saved) {
                CalibrationStep::Done(
                    build_report(channel, path, true, status, saved.duplicate(), reused_report()),
                )
            } else {
                calibrate_anew(channel, path, device, status, events)
            },
        },
        _ => calibrate_anew(channel, path, device, status, events),
    }
}

// ---------------------------------------------------------------- laws

/// A camera whose measuring fails is stopped, and each axis whose direction is known is
/// brought back to where it was.
pub proof fn law_failures_bring_the_camera_home(
    device: DeviceModel,
    status: StatusModel,
    done: MeasurementsModel,
    created_at: Seq<char>,
)
    requires
        counts_of(status) is Ok,
        measure_step(device, status, done, created_at) matches MeasureModel::Done { result, .. }
            && result is Err,
    ensures
        ({
            let home = counts_of(status)->Ok_0;
            measure_step(device, status, done, created_at) matches MeasureModel::Done {
                restores,
                stops,
                ..
            } && stops && (done.pan_motion matches Some(Ok(motion)) ==> restores.contains(
                HomeRestore { axis: AxisKind::Pan, home_position: home.0, motion },
            )) && (done.pan_motion is Some && done.pan_motion->0 is Ok ==> (
            done.tilt_motion matches Some(Ok(motion)) ==> restores.contains(
                HomeRestore { axis: AxisKind::Tilt, home_position: home.1, motion },
            )))
        }),
{
    let home = counts_of(status)->Ok_0;
    match done.pan_motion {
        Some(Ok(pan)) => {
            let restore = HomeRestore {
                axis: AxisKind::Pan,
                home_position: home.0,
                motion: pan,
            };
            match done.tilt_motion {
                Some(Ok(tilt)) => {
                    let other = HomeRestore {
                        axis: AxisKind::Tilt,
                        home_position: home.1,
                        motion: tilt,
                    };
                    let restores = restores_after(false, home.0, home.1, Some(pan), Some(tilt));
                    assert(restores[0] == restore);
                    assert(restores[1] == other);
                },
                _ => {
                    let restores = restores_after(false, home.0, home.1, Some(pan), None);
                    assert(restores[0] == restore);
                },
            }
        },
        _ => {},
    }
}

/// A measured calibration has the ends that the sweeps found, and its models are as good
/// as they must be. Both axes were brought back before it was made.
pub proof fn law_measured_calibrations_are_good(
    device: DeviceModel,
    status: StatusModel,
    done: MeasurementsModel,
    created_at: Seq<char>,
)
    requires
        measure_step(device, status, done, created_at) matches MeasureModel::Done { result, .. }
            && result is Ok,
    ensures
        measure_step(device, status, done, created_at) matches MeasureModel::Done {
            restores,
            result,
            ..
        } && {
            let params = result->Ok_0.0;
            &&& restores.len() == 0
            &&& done.pan_ends == Some(Ok::<_, ErrorModel>((params.pan_min_count, params.pan_max_count)))
            &&& done.tilt_ends == Some(Ok::<_, ErrorModel>((params.tilt_min_count, params.tilt_max_count)))
            &&& done.pan_restored matches Some(Ok(_))
            &&& done.tilt_restored matches Some(Ok(_))
            &&& done.estimates matches Some((pan, tilt)) && quality_error(
                span_of((params.pan_min_count, params.pan_max_count)),
                span_of((params.tilt_min_count, params.tilt_max_count)),
                pan.residual_p95_count as int,
                tilt.residual_p95_count as int,
            ) is None
        },
{
}

/// A calibration that was written for a camera is used again for it, on the same channel,
/// where the camera says that it is calibrated. It is not measured again.
pub proof fn law_written_calibrations_are_reused(
    channel: u8,
    env: EnvironmentModel,
    earlier: EventsModel,
    device: DeviceModel,
    status: StatusModel,
    events: EventsModel,
)
    requires
        earlier.device == Some(Ok::<_, ErrorModel>(device)),
        calibration_step(channel, env, earlier) is Write,
        events.device == Some(Ok::<_, ErrorModel>(device)),
        events.status == Some(Ok::<_, ErrorModel>(status)),
        calibrated_state(status) == Some(true),
        events.saved == Some(
            Ok::<_, ErrorModel>(Some(calibration_step(channel, env, earlier)->stored)),
        ),
    ensures
        calibration_step(channel, env, earlier)->Write_path == calibration_path_of(env, device),
        calibration_step(channel, env, events) == CalibrationStepModel::Done(
            reported(
                channel,
                calibration_path_of(env, device),
                true,
                status,
                calibration_step(channel, env, earlier)->stored,
                plain_report("reused_saved_params"@),
            ),
        ),
{
}

/// A camera that does not say that it is calibrated is measured, whatever was saved.
pub proof fn law_uncalibrated_cameras_are_measured(
    channel: u8,
    env: EnvironmentModel,
    device: DeviceModel,
    status: StatusModel,
    saved: Option<Result<Option<StoredModel>, ErrorModel>>,
)
    requires
        calibrated_state(status) != Some(true),
    ensures
        calibration_step(
            channel,
            env,
            EventsModel {
                device: Some(Ok(device)),
                status: Some(Ok(status)),
                saved,
                ..nothing_known()
            },
        ) == CalibrationStepModel::Measure,
{
}

/// Measuring that fails does not fail a calibration: the camera gets the usual one.
pub proof fn law_calibrations_do_without_measuring(
    channel: u8,
    env: EnvironmentModel,
    device: DeviceModel,
    status: StatusModel,
    error: ErrorModel,
    usual: UsualModelsModel,
)
    requires
        calibrated_state(status) != Some(true),
    ensures
        calibration_step(
            channel,
            env,
            EventsModel {
                device: Some(Ok(device)),
                status: Some(Ok(status)),
                measured: Some(Err(error)),
                usual: Some(usual),
                ..nothing_known()
            },
        ) matches CalibrationStepModel::Write { stored, .. } && stored.calibration
            == heuristic_params(device, status, usual) && stored.source
            == CALIBRATION_SOURCE_HEURISTIC@,
{
}

} // verus!
