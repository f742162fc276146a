//! Calibrating the camera: which way each axis goes, how far, and how small a movement it
//! can make.
//!
//! Fitting a model of the movement to the samples is done in floating point, outside of this
//! module.
use crate::double::{
    divide, double_from, double_of, lemma_nearest_is_something, nearest, nearest_of, quotient,
    round_to_u64, rounded, sum, total,
};
use crate::error::{error_model, result_model, AppError, AppResult, ErrorKind, ErrorModel};
use crate::interfaces::runtime::{calibration_camera_key, camera_key_of};
use crate::model::{
    calibrated_state, CalibrationReport, DeviceInfo, NumericRange, PtzDirection, PtzStatus,
    StatusModel,
};
use crate::natural::Natural;
use crate::text::{dec, dec_int, dec_i64, dec_u64, join2, join3, same_text};
use crate::usecases::ptz_calibration::StoredCalibration;
use vstd::prelude::*;
use vstd::relations::sorted_by;
use vstd::relations::total_ordering;

verus! {

pub const CALIBRATION_SCHEMA_VERSION: u32 = 2;

pub const CALIBRATION_SOURCE_HEURISTIC: &'static str = "auto_heuristic";

pub const CALIBRATION_SOURCE_MEASURED: &'static str = "auto_measured";

pub const DEFAULT_PAN_SPAN_UNITS: i64 = 3600;

pub const DEFAULT_TILT_SPAN_UNITS: i64 = 1800;

pub const CALIBRATION_RESTORE_PULSE_MS: u64 = 220;

pub const CALIBRATION_SETTLE_MS: u64 = 80;

pub const CALIBRATION_STALL_STEPS: u64 = 3;

pub const CALIBRATION_SWEEP_MAX_STEPS: u64 = 64;

pub const CALIBRATION_RESTORE_MAX_STEPS: u64 = 36;

pub const CALIBRATION_RESTORE_TOLERANCE: i64 = 10;

/// The first pass of a sweep and the passes that may follow it.
pub const CALIBRATION_SWEEP_PASSES_MAX: usize = 9;

pub const DEFAULT_DEADBAND_COUNT: i64 = 6;

pub const CALIBRATION_DEADBAND_PROBE_SPEED: u8 = 2;

pub const CALIBRATION_DEADBAND_PRELOAD_MS: u64 = 24;

pub const CALIBRATION_DEADBAND_PROBE_COUNT: usize = 7;

/// The pulses of a probe.
pub const DEADBAND_PROBE_STEPS: usize = 9;

#[derive(Debug, Clone, Copy, PartialEq, Eq, Structural)]
pub enum AxisKind {
    Pan,
    Tilt,
}

/// The directions in which the count of an axis grows and shrinks.
#[derive(Debug, Clone, Copy, PartialEq, Eq, Structural)]
pub struct AxisMotion {
    pub increase: PtzDirection,
    pub decrease: PtzDirection,
}

impl View for AxisMotion {
    type V = AxisMotion;

    open spec fn view(&self) -> AxisMotion {
        *self
    }
}

/// The smallest movement in each direction.
#[derive(Debug, Clone, Copy, PartialEq, Eq, Structural)]
pub struct DirectionalDeadband {
    pub increase_count: i64,
    pub decrease_count: i64,
}

pub open spec fn at_least_one(n: i64) -> i64 {
    if n < 1 {
        1
    } else {
        n
    }
}

impl DirectionalDeadband {
    pub fn uniform(count: i64) -> (r: Self)
        ensures
            r.increase_count == at_least_one(count),
            r.decrease_count == at_least_one(count),
    {
        let clamped: i64 = if count < 1 {
            1
        } else {
            count
        };
        DirectionalDeadband { increase_count: clamped, decrease_count: clamped }
    }

    /// The larger of the two.
    pub fn compatibility_count(self) -> (r: i64)
        ensures
            r == if self.increase_count >= self.decrease_count {
                self.increase_count
            } else {
                self.decrease_count
            },
    {
        if self.increase_count >= self.decrease_count {
            self.increase_count
        } else {
            self.decrease_count
        }
    }
}

// ---------------------------------------------------------------- what each axis gets

pub open spec fn pulse_speed(axis: AxisKind) -> u8 {
    match axis {
        AxisKind::Pan => 6,
        AxisKind::Tilt => 4,
    }
}

pub open spec fn pulse_ms(axis: AxisKind) -> u64 {
    match axis {
        AxisKind::Pan => 220,
        AxisKind::Tilt => 170,
    }
}

pub open spec fn min_move(axis: AxisKind) -> i64 {
    match axis {
        AxisKind::Pan => 8,
        AxisKind::Tilt => 4,
    }
}

pub open spec fn stall_delta(axis: AxisKind) -> i64 {
    match axis {
        AxisKind::Pan => 4,
        AxisKind::Tilt => 2,
    }
}

pub open spec fn sample_cap(axis: AxisKind) -> usize {
    match axis {
        AxisKind::Pan => 100,
        AxisKind::Tilt => 140,
    }
}

pub open spec fn min_samples(axis: AxisKind) -> usize {
    match axis {
        AxisKind::Pan => 50,
        AxisKind::Tilt => 70,
    }
}

pub fn calibration_pulse_speed(axis: AxisKind) -> (r: u8)
    ensures
        r == pulse_speed(axis),
{
    match axis {
        AxisKind::Pan => 6,
        AxisKind::Tilt => 4,
    }
}

pub fn calibration_pulse_ms(axis: AxisKind) -> (r: u64)
    ensures
        r == pulse_ms(axis),
{
    match axis {
        AxisKind::Pan => 220,
        AxisKind::Tilt => 170,
    }
}

pub fn calibration_min_move_delta(axis: AxisKind) -> (r: i64)
    ensures
        r == min_move(axis),
{
    match axis {
        AxisKind::Pan => 8,
        AxisKind::Tilt => 4,
    }
}

pub fn calibration_stall_delta(axis: AxisKind) -> (r: i64)
    ensures
        r == stall_delta(axis),
{
    match axis {
        AxisKind::Pan => 4,
        AxisKind::Tilt => 2,
    }
}

pub fn axis_model_sample_cap(axis: AxisKind) -> (r: usize)
    ensures
        r == sample_cap(axis),
{
    match axis {
        AxisKind::Pan => 100,
        AxisKind::Tilt => 140,
    }
}

pub fn axis_model_min_samples(axis: AxisKind) -> (r: usize)
    ensures
        r == min_samples(axis),
{
    match axis {
        AxisKind::Pan => 50,
        AxisKind::Tilt => 70,
    }
}

pub open spec fn axis_name(axis: AxisKind) -> Seq<char> {
    match axis {
        AxisKind::Pan => "Pan"@,
        AxisKind::Tilt => "Tilt"@,
    }
}

fn name_of_axis(axis: AxisKind) -> (r: &'static str)
    ensures
        r@ == axis_name(axis),
{
    match axis {
        AxisKind::Pan => "Pan",
        AxisKind::Tilt => "Tilt",
    }
}

// ---------------------------------------------------------------- positions

/// The count of an axis in a status.
pub open spec fn count_of(status: StatusModel, axis: AxisKind) -> Result<i64, ErrorModel> {
    match axis {
        AxisKind::Pan => match status.pan_position {
            Some(n) => Ok(n),
            None => Err(
                error_model(
                    ErrorKind::UnexpectedResponse,
                    "PTZ status missing pan position for channel "@ + dec(status.channel as nat),
                ),
            ),
        },
        AxisKind::Tilt => match status.tilt_position {
            Some(n) => Ok(n),
            None => Err(
                error_model(
                    ErrorKind::UnexpectedResponse,
                    "PTZ status missing tilt position for channel "@ + dec(status.channel as nat),
                ),
            ),
        },
    }
}

/// The counts of both axes in a status.
pub open spec fn counts_of(status: StatusModel) -> Result<(i64, i64), ErrorModel> {
    match (count_of(status, AxisKind::Pan), count_of(status, AxisKind::Tilt)) {
        (Err(error), _) => Err(error),
        (Ok(_), Err(error)) => Err(error),
        (Ok(pan), Ok(tilt)) => Ok((pan, tilt)),
    }
}

pub fn axis_position(status: &PtzStatus, axis: AxisKind) -> (r: AppResult<i64>)
    ensures
        result_model(r) == count_of(status@, axis),
{
    let (position, words) = match axis {
        AxisKind::Pan => (
            status.pan_position,
            "PTZ status missing pan position for channel ",
        ),
        AxisKind::Tilt => (
            status.tilt_position,
            "PTZ status missing tilt position for channel ",
        ),
    };
    match position {
        Some(n) => Ok(n),
        None => Err(
            AppError::with_message(
                ErrorKind::UnexpectedResponse,
                join2(words, dec_u64(status.channel as u64).as_str()),
            ),
        ),
    }
}

pub open spec fn counts_model(r: AppResult<(i64, i64)>) -> Result<(i64, i64), ErrorModel> {
    match r {
        Ok(counts) => Ok(counts),
        Err(error) => Err(error@),
    }
}

pub fn map_status_to_counts(status: &PtzStatus) -> (r: AppResult<(i64, i64)>)
    ensures
        counts_model(r) == counts_of(status@),
{
    match axis_position(status, AxisKind::Pan) {
        Err(error) => Err(error),
        Ok(pan) => match axis_position(status, AxisKind::Tilt) {
            Err(error) => Err(error),
            Ok(tilt) => Ok((pan, tilt)),
        },
    }
}

// ---------------------------------------------------------------- saved calibrations

/// A saved calibration stands for the camera where it is for the same channel and the
/// camera says that it is calibrated.
pub fn can_reuse_saved_calibration(
    status: &PtzStatus,
    requested_channel: u8,
    saved_params: &StoredCalibration,
) -> (r: bool)
    ensures
        r == (calibrated_state(status@) == Some(true) && saved_params.channel == requested_channel),
{
    match status.calibrated() {
        Some(calibrated) => calibrated && saved_params.channel == requested_channel,
        None => false,
    }
}

/// A saved calibration is used only where it was written by this version for this camera.
pub fn accepts_saved_calibration(
    schema_version: u32,
    camera_key: &str,
    device_info: &DeviceInfo,
) -> (r: bool)
    ensures
        r == (schema_version == CALIBRATION_SCHEMA_VERSION && camera_key@ == camera_key_of(
            device_info@,
        )),
{
    let expected = calibration_camera_key(device_info);
    schema_version == CALIBRATION_SCHEMA_VERSION && same_text(camera_key, expected.as_str())
}

/// The report where a saved calibration is used again.
pub fn reused_report() -> (r: CalibrationReport)
    ensures
        r.samples == 1,
        r.pan_error_p95_count == 0,
        r.tilt_error_p95_count == 0,
        r.notes@ == "reused_saved_params"@,
{
    CalibrationReport {
        samples: 1,
        pan_error_p95_count: 0,
        tilt_error_p95_count: 0,
        notes: "reused_saved_params".to_owned(),
    }
}

/// The report where measuring failed and a calibration was made without it.
pub fn heuristic_report(error: &AppError) -> (r: CalibrationReport)
    ensures
        r.samples == 1,
        r.pan_error_p95_count == 0,
        r.tilt_error_p95_count == 0,
        r.notes@ == "fallback_to_heuristic: "@ + error@.message,
{
    CalibrationReport {
        samples: 1,
        pan_error_p95_count: 0,
        tilt_error_p95_count: 0,
        notes: join2("fallback_to_heuristic: ", error.message.as_str()),
    }
}

// ---------------------------------------------------------------- finding the directions

/// The next step of finding out which way an axis goes.
pub enum DetectStep {
    Read,
    Pulse(PtzDirection),
    Done(AppResult<AxisMotion>),
}

pub ghost enum DetectModel {
    Read,
    Pulse(PtzDirection),
    Done(Result<AxisMotion, ErrorModel>),
}

impl View for DetectStep {
    type V = DetectModel;

    open spec fn view(&self) -> DetectModel {
        match self {
            DetectStep::Read => DetectModel::Read,
            DetectStep::Pulse(direction) => DetectModel::Pulse(*direction),
            DetectStep::Done(result) => DetectModel::Done(result_model(*result)),
        }
    }
}

/// The direction that is tried first, and the other one.
pub open spec fn tried_directions(axis: AxisKind) -> (PtzDirection, PtzDirection) {
    match axis {
        AxisKind::Pan => (PtzDirection::Right, PtzDirection::Left),
        AxisKind::Tilt => (PtzDirection::Up, PtzDirection::Down),
    }
}

pub open spec fn size(n: int) -> int {
    if n < 0 {
        -n
    } else {
        n
    }
}

/// Which way an axis goes, given by how much its count changed in a direction.
pub open spec fn motion_from(
    pushed: PtzDirection,
    other: PtzDirection,
    delta: int,
) -> AxisMotion {
    if delta > 0 {
        AxisMotion { increase: pushed, decrease: other }
    } else {
        AxisMotion { increase: other, decrease: pushed }
    }
}

/// Which way an axis goes: it is read, pushed in one direction, read again and pushed back.
/// Where that moved it too little, the same is tried the other way.
pub open spec fn detect_step(axis: AxisKind, readings: Seq<i64>, pulses: int) -> DetectModel {
    let (primary, secondary) = tried_directions(axis);
    if readings.len() > pulses {
        DetectModel::Pulse(
            if pulses == 1 || pulses == 2 {
                secondary
            } else {
                primary
            },
        )
    } else if readings.len() < 2 {
        DetectModel::Read
    } else {
        let first = readings[1] - readings[0];
        if size(first) >= min_move(axis) {
            DetectModel::Done(Ok(motion_from(primary, secondary, first)))
        } else if readings.len() < 4 {
            DetectModel::Read
        } else {
            let second = readings[3] - readings[2];
            if size(second) >= min_move(axis) {
                DetectModel::Done(Ok(motion_from(secondary, primary, second)))
            } else {
                DetectModel::Done(
                    Err(
                        error_model(
                            ErrorKind::UnexpectedResponse,
                            "failed to detect "@ + axis_name(axis)
                                + " axis direction: movement delta too small ("@ + dec_int(first)
                                + ", "@ + dec_int(second) + ")"@,
                        ),
                    ),
                )
            }
        }
    }
}

fn small_number(n: i128) -> (r: i64)
    requires
        -100 < n < 100,
    ensures
        r == n,
{
    n as i64
}

/// Finds out which way an axis goes, given what was read so far and how many pulses were
/// made.
pub fn detect_axis_motion(axis: AxisKind, readings: &[i64], pulses: usize) -> (r: DetectStep)
    ensures
        r@ == detect_step(axis, readings@, pulses as int),
{
    let (primary, secondary) = match axis {
        AxisKind::Pan => (PtzDirection::Right, PtzDirection::Left),
        AxisKind::Tilt => (PtzDirection::Up, PtzDirection::Down),
    };
    if readings.len() > pulses {
        return DetectStep::Pulse(
            if pulses == 1 || pulses == 2 {
                secondary
            } else {
                primary
            },
        );
    }
    if readings.len() < 2 {
        return DetectStep::Read;
    }
    let least: i128 = calibration_min_move_delta(axis) as i128;
    let first: i128 = readings[1] as i128 - readings[0] as i128;
    if first >= least {
        return DetectStep::Done(Ok(AxisMotion { increase: primary, decrease: secondary }));
    }
    if -first >= least {
        return DetectStep::Done(Ok(AxisMotion { increase: secondary, decrease: primary }));
    }
    if readings.len() < 4 {
        return DetectStep::Read;
    }
    let second: i128 = readings[3] as i128 - readings[2] as i128;
    if second >= least {
        return DetectStep::Done(Ok(AxisMotion { increase: secondary, decrease: primary }));
    }
    if -second >= least {
        return DetectStep::Done(Ok(AxisMotion { increase: primary, decrease: secondary }));
    }
    let text = join3(
        "failed to detect ",
        name_of_axis(axis),
        " axis direction: movement delta too small (",
    );
    let text = join3(text.as_str(), dec_i64(small_number(first)).as_str(), ", ");
    let text = join3(text.as_str(), dec_i64(small_number(second)).as_str(), ")");
    DetectStep::Done(Err(AppError::with_message(ErrorKind::UnexpectedResponse, text)))
}

// ---------------------------------------------------------------- finding the ends

/// A sweep towards one end of an axis.
#[derive(Debug, Clone, Copy, PartialEq, Eq, Structural)]
pub struct AxisSweep {
    pub axis: AxisKind,
    pub toward_min: bool,
    /// The furthest count that was read.
    pub best: i64,
    pub stall_steps: u64,
    pub steps: u64,
}

/// The sweep is over once the axis has stalled for some steps, or after many steps.
pub open spec fn sweep_over(sweep: AxisSweep) -> bool {
    sweep.stall_steps >= CALIBRATION_STALL_STEPS || sweep.steps >= CALIBRATION_SWEEP_MAX_STEPS
}

pub open spec fn further(toward_min: bool, a: i64, b: i64) -> i64 {
    if toward_min == (a <= b) {
        a
    } else {
        b
    }
}

/// The sweep after a pulse, with what was read before and after it.
pub open spec fn swept(sweep: AxisSweep, before: i64, after: i64) -> AxisSweep {
    AxisSweep {
        best: further(sweep.toward_min, sweep.best, after),
        stall_steps: if size(after - before) <= stall_delta(sweep.axis) {
            (sweep.stall_steps + 1) as u64
        } else {
            0
        },
        steps: (sweep.steps + 1) as u64,
        ..sweep
    }
}

/// The samples after a pulse: how far it moved the axis, if at all, while there is room.
pub open spec fn sampled(samples: Seq<u64>, axis: AxisKind, before: i64, after: i64) -> Seq<u64> {
    if samples.len() < sample_cap(axis) && after != before {
        samples.push(size(after - before) as u64)
    } else {
        samples
    }
}

impl AxisSweep {
    /// A sweep that starts at the given count.
    pub fn start(axis: AxisKind, toward_min: bool, count: i64) -> (r: Self)
        ensures
            r == (AxisSweep { axis, toward_min, best: count, stall_steps: 0, steps: 0 }),
            !sweep_over(r),
    {
        AxisSweep { axis, toward_min, best: count, stall_steps: 0, steps: 0 }
    }

    pub fn is_over(&self) -> (r: bool)
        ensures
            r == sweep_over(*self),
    {
        self.stall_steps >= CALIBRATION_STALL_STEPS || self.steps >= CALIBRATION_SWEEP_MAX_STEPS
    }

    /// Notes a pulse.
    pub fn record(&mut self, before: i64, after: i64, samples: &mut Vec<u64>)
        requires
            !sweep_over(*old(self)),
        ensures
            *final(self) == swept(*old(self), before, after),
            final(samples)@ == sampled(old(samples)@, old(self).axis, before, after),
    {
        let moved: u64 = if after >= before {
            (after as i128 - before as i128) as u64
        } else {
            (before as i128 - after as i128) as u64
        };
        if samples.len() < axis_model_sample_cap(self.axis) && moved > 0 {
            samples.push(moved);
        }
        if self.toward_min {
            if after < self.best {
                self.best = after;
            }
        } else if after > self.best {
            self.best = after;
        }
        if moved <= calibration_stall_delta(self.axis) as u64 {
            self.stall_steps = self.stall_steps + 1;
        } else {
            self.stall_steps = 0;
        }
        self.steps = self.steps + 1;
    }
}

/// The next step of finding the ends of an axis: a sweep, or the ends.
pub enum BoundsStep {
    Sweep { toward_min: bool },
    Done(AppResult<(i64, i64)>),
}

pub ghost enum BoundsModel {
    Sweep { toward_min: bool },
    Done(Result<(i64, i64), ErrorModel>),
}

impl View for BoundsStep {
    type V = BoundsModel;

    open spec fn view(&self) -> BoundsModel {
        match self {
            BoundsStep::Sweep { toward_min } => BoundsModel::Sweep { toward_min: *toward_min },
            BoundsStep::Done(result) => BoundsModel::Done(counts_model(*result)),
        }
    }
}

/// The furthest of some counts.
pub open spec fn furthest(toward_min: bool, counts: Seq<i64>) -> i64
    decreases counts.len(),
{
    if counts.len() <= 1 {
        counts[0]
    } else {
        further(toward_min, furthest(toward_min, counts.drop_last()), counts.last())
    }
}

/// The ends of an axis, given the ends that the sweeps came to and how many samples they
/// gave: sweeps to both ends are made, and made again while there are too few samples. The
/// ends must not coincide.
pub open spec fn bounds_step(
    axis: AxisKind,
    mins: Seq<i64>,
    maxs: Seq<i64>,
    samples: int,
) -> BoundsModel {
    if mins.len() > maxs.len() {
        BoundsModel::Sweep { toward_min: false }
    } else if mins.len() == 0 || maxs.len() == 0 || (samples < min_samples(axis) && maxs.len()
        < CALIBRATION_SWEEP_PASSES_MAX) {
        BoundsModel::Sweep { toward_min: true }
    } else {
        let min = furthest(true, mins);
        let max = furthest(false, maxs);
        if max <= min {
            BoundsModel::Done(
                Err(
                    error_model(
                        ErrorKind::UnexpectedResponse,
                        "invalid "@ + axis_name(axis) + " span from measured sweep: min="@
                            + dec_int(min as int) + ", max="@ + dec_int(max as int),
                    ),
                ),
            )
        } else {
            BoundsModel::Done(Ok((min, max)))
        }
    }
}

fn furthest_of(toward_min: bool, counts: &[i64]) -> (r: i64)
    requires
        counts.len() > 0,
    ensures
        r == furthest(toward_min, counts@),
{
    let mut best: i64 = counts[0];
    let mut i: usize = 1;
    proof {
        assert(counts@.take(1).len() == 1);
    }
    while i < counts.len()
        invariant
            1 <= i <= counts.len(),
            best == furthest(toward_min, counts@.take(i as int)),
        decreases counts.len() - i,
    {
        let count: i64 = counts[i];
        proof {
            assert(counts@.take(i + 1).drop_last() =~= counts@.take(i as int));
        }
        if toward_min {
            if count < best {
                best = count;
            }
        } else if count > best {
            best = count;
        }
        i = i + 1;
    }
    proof {
        assert(counts@.take(counts.len() as int) =~= counts@);
    }
    best
}

/// Finds the ends of an axis.
pub fn sweep_axis_bounds(axis: AxisKind, mins: &[i64], maxs: &[i64], samples: usize) -> (r:
    BoundsStep)
    ensures
        r@ == bounds_step(axis, mins@, maxs@, samples as int),
{
    if mins.len() > maxs.len() {
        return BoundsStep::Sweep { toward_min: false };
    }
    if mins.len() == 0 || maxs.len() == 0 || (samples < axis_model_min_samples(axis) && maxs.len()
        < CALIBRATION_SWEEP_PASSES_MAX) {
        return BoundsStep::Sweep { toward_min: true };
    }
    let min: i64 = furthest_of(true, mins);
    let max: i64 = furthest_of(false, maxs);
    if max <= min {
        let text = join3("invalid ", name_of_axis(axis), " span from measured sweep: min=");
        let text = join3(text.as_str(), dec_i64(min).as_str(), ", max=");
        return BoundsStep::Done(
            Err(
                AppError::with_message(
                    ErrorKind::UnexpectedResponse,
                    join2(text.as_str(), dec_i64(max).as_str()),
                ),
            ),
        );
    }
    BoundsStep::Done(Ok((min, max)))
}

// ---------------------------------------------------------------- going back

/// The next step of bringing an axis back to where it was.
#[derive(Debug, Clone, Copy, PartialEq, Eq, Structural)]
pub enum RestoreStep {
    Read,
    Move { direction: PtzDirection, speed: u8 },
    Done,
}

/// An axis is brought back by pushes that get slower as it comes near, and that end when it
/// is near enough or after many pushes.
pub open spec fn restore_step(
    motion: AxisMotion,
    home: i64,
    moves: int,
    current: Option<i64>,
) -> RestoreStep {
    if moves >= CALIBRATION_RESTORE_MAX_STEPS {
        RestoreStep::Done
    } else {
        match current {
            None => RestoreStep::Read,
            Some(count) => {
                let error = home - count;
                if size(error) <= CALIBRATION_RESTORE_TOLERANCE {
                    RestoreStep::Done
                } else {
                    RestoreStep::Move {
                        direction: if error > 0 {
                            motion.increase
                        } else {
                            motion.decrease
                        },
                        speed: if size(error) <= 40 {
                            2
                        } else if size(error) <= 140 {
                            4
                        } else {
                            6
                        },
                    }
                }
            },
        }
    }
}

/// Brings an axis back, given how many pushes were made and what was read after the last.
pub fn restore_axis_to_home(
    motion: AxisMotion,
    home_position: i64,
    moves: u64,
    current: Option<i64>,
) -> (r: RestoreStep)
    ensures
        r == restore_step(motion, home_position, moves as int, current),
{
    if moves >= CALIBRATION_RESTORE_MAX_STEPS {
        return RestoreStep::Done;
    }
    let count: i64 = match current {
        Some(count) => count,
        None => {
            return RestoreStep::Read;
        },
    };
    let error: i128 = home_position as i128 - count as i128;
    let distance: i128 = if error < 0 {
        -error
    } else {
        error
    };
    if distance <= CALIBRATION_RESTORE_TOLERANCE as i128 {
        return RestoreStep::Done;
    }
    let direction = if error > 0 {
        motion.increase
    } else {
        motion.decrease
    };
    let speed: u8 = if distance <= 40 {
        2
    } else if distance <= 140 {
        4
    } else {
        6
    };
    RestoreStep::Move { direction, speed }
}

/// An axis that is to be brought back, to which count, and which way it goes.
#[derive(Debug, Clone, Copy, PartialEq, Eq, Structural)]
pub struct HomeRestore {
    pub axis: AxisKind,
    pub home_position: i64,
    pub motion: AxisMotion,
}

/// After measuring failed, the axes whose directions are known are brought back, pan first.
pub open spec fn restores_after(
    measured: bool,
    home_pan: i64,
    home_tilt: i64,
    pan_motion: Option<AxisMotion>,
    tilt_motion: Option<AxisMotion>,
) -> Seq<HomeRestore> {
    let pan = match pan_motion {
        Some(motion) => seq![HomeRestore { axis: AxisKind::Pan, home_position: home_pan, motion }],
        None => Seq::empty(),
    };
    let tilt = match tilt_motion {
        Some(motion) => seq![
            HomeRestore { axis: AxisKind::Tilt, home_position: home_tilt, motion },
        ],
        None => Seq::empty(),
    };
    if measured {
        Seq::empty()
    } else {
        pan + tilt
    }
}

/// The axes that are brought back, given whether measuring succeeded.
pub fn attempt_home_restore_on_failure(
    measured: bool,
    home_pan: i64,
    home_tilt: i64,
    pan_motion: Option<AxisMotion>,
    tilt_motion: Option<AxisMotion>,
) -> (r: Vec<HomeRestore>)
    ensures
        r@ == restores_after(measured, home_pan, home_tilt, pan_motion, tilt_motion),
{
    let mut restores: Vec<HomeRestore> = Vec::new();
    if measured {
        return restores;
    }
    if let Some(motion) = pan_motion {
        restores.push(HomeRestore { axis: AxisKind::Pan, home_position: home_pan, motion });
    }
    if let Some(motion) = tilt_motion {
        restores.push(HomeRestore { axis: AxisKind::Tilt, home_position: home_tilt, motion });
    }
    restores
}

// ---------------------------------------------------------------- the smallest movement

/// The next step of a probe for the smallest movement.
#[derive(Debug, Clone, Copy, PartialEq, Eq, Structural)]
pub enum ProbeStep {
    Pulse { pulse_ms: u64 },
    Done { count: i64 },
}

/// The pulses of a probe get longer.
pub open spec fn probe_pulse_ms(step: int) -> u64 {
    if step == 0 {
        8
    } else if step == 1 {
        12
    } else if step == 2 {
        16
    } else if step == 3 {
        24
    } else if step == 4 {
        32
    } else if step == 5 {
        48
    } else if step == 6 {
        64
    } else if step == 7 {
        80
    } else {
        110
    }
}

/// A movement, which is at least one count, as far as it fits.
pub open spec fn probe_count(before: i64, after: i64) -> i64 {
    let moved = size(after - before);
    if moved < 1 {
        1
    } else if moved > i64::MAX {
        i64::MAX
    } else {
        moved as i64
    }
}

/// A probe is over with the first pulse that moves the axis far enough. Where none does,
/// it comes to the least movement that counts.
pub open spec fn probe_step(axis: AxisKind, pulses: Seq<(i64, i64)>) -> ProbeStep {
    if pulses.len() > 0 && probe_count(pulses.last().0, pulses.last().1) >= min_move(axis) {
        ProbeStep::Done { count: probe_count(pulses.last().0, pulses.last().1) }
    } else if pulses.len() < DEADBAND_PROBE_STEPS {
        ProbeStep::Pulse { pulse_ms: probe_pulse_ms(pulses.len() as int) }
    } else {
        ProbeStep::Done { count: min_move(axis) }
    }
}

/// Probes for the smallest movement, given what was read before and after each pulse.
pub fn measure_directional_deadband_count(axis: AxisKind, pulses: &[(i64, i64)]) -> (r: ProbeStep)
    ensures
        r == probe_step(axis, pulses@),
{
    let least: i64 = calibration_min_move_delta(axis);
    let n: usize = pulses.len();
    if n > 0 {
        let (before, after) = pulses[n - 1];
        let moved: i128 = if after >= before {
            after as i128 - before as i128
        } else {
            before as i128 - after as i128
        };
        let count: i64 = if moved < 1 {
            1
        } else if moved > i64::MAX as i128 {
            i64::MAX
        } else {
            moved as i64
        };
        if count >= least {
            return ProbeStep::Done { count };
        }
    }
    if n < DEADBAND_PROBE_STEPS {
        let pulse_ms: u64 = if n == 0 {
            8
        } else if n == 1 {
            12
        } else if n == 2 {
            16
        } else if n == 3 {
            24
        } else if n == 4 {
            32
        } else if n == 5 {
            48
        } else if n == 6 {
            64
        } else if n == 7 {
            80
        } else {
            110
        };
        return ProbeStep::Pulse { pulse_ms };
    }
    ProbeStep::Done { count: least }
}

// ---------------------------------------------------------------- the smallest movement, from samples

pub open spec fn no_larger(a: i64, b: i64) -> bool {
    a <= b
}

/// The samples that count, in ascending order.
pub open spec fn ascending(samples: Seq<i64>) -> Seq<i64> {
    samples.filter(|n: i64| n > 0).sort_by(|a: i64, b: i64| no_larger(a, b))
}

/// Twice the middle of numbers in ascending order.
pub open spec fn median_twice(sorted: Seq<i64>) -> int {
    let mid = sorted.len() as int / 2;
    if sorted.len() % 2 == 1 {
        2 * sorted[mid]
    } else {
        sorted[mid - 1] + sorted[mid]
    }
}

pub open spec fn sum_of(numbers: Seq<i64>) -> int
    decreases numbers.len(),
{
    if numbers.len() == 0 {
        0
    } else {
        sum_of(numbers.drop_last()) + numbers.last()
    }
}

/// How many numbers are left out at each end: a fifth.
pub open spec fn trim_count(len: int) -> int {
    len / 5
}

/// The numbers without the fifth at each end.
pub open spec fn without_ends(sorted: Seq<i64>) -> Seq<i64> {
    let trim = trim_count(sorted.len() as int);
    sorted.subrange(trim, sorted.len() - trim)
}

/// The double for a whole number.
pub open spec fn whole_double(n: int) -> nat {
    double_of(n as nat, 1)
}

/// The middle of numbers in ascending order, as a double.
pub open spec fn middle_double(sorted: Seq<i64>) -> nat {
    let mid = sorted.len() as int / 2;
    if sorted.len() % 2 == 1 {
        whole_double(sorted[mid] as int)
    } else {
        quotient(sum(whole_double(sorted[mid - 1] as int), whole_double(sorted[mid] as int)), 2)
    }
}

/// The mean of numbers, as a double.
pub open spec fn mean_double(numbers: Seq<i64>) -> nat {
    quotient(whole_double(sum_of(numbers)), nearest(numbers.len(), 1))
}

/// The mean of the middle and of the mean without the ends, computed with doubles, rounded to
/// the nearest, and at least one. Few large samples change it little.
pub open spec fn robust_count(samples: Seq<i64>) -> Option<int> {
    let sorted = ascending(samples);
    if sorted.len() == 0 {
        None
    } else {
        let blended = rounded(
            quotient(sum(middle_double(sorted), mean_double(without_ends(sorted))), 2),
        );
        Some(
            if blended < 1 {
                1
            } else if blended > i64::MAX {
                i64::MAX as int
            } else {
                blended as int
            },
        )
    }
}

/// The place at which a number goes among numbers in ascending order.
fn place_in(sorted: &Vec<i64>, n: i64) -> (r: usize)
    requires
        sorted_by(sorted@, |a: i64, b: i64| no_larger(a, b)),
    ensures
        r <= sorted.len(),
        forall|i: int| 0 <= i < r ==> sorted@[i] <= n,
        forall|i: int| r <= i < sorted.len() ==> n <= sorted@[i],
{
    let ghost leq = |a: i64, b: i64| no_larger(a, b);
    let mut at: usize = 0;
    while at < sorted.len() && sorted[at] <= n
        invariant
            at <= sorted.len(),
            forall|i: int| 0 <= i < at ==> sorted@[i] <= n,
        decreases sorted.len() - at,
    {
        at = at + 1;
    }
    proof {
        assert forall|i: int| at <= i < sorted.len() implies n <= sorted@[i] by {
            if i > at {
                assert(leq(sorted@[at as int], sorted@[i]));
            }
        }
    }
    at
}

/// The samples that count, in ascending order.
fn sort_positive(samples: &[i64]) -> (r: Vec<i64>)
    ensures
        r@ == ascending(samples@),
        r.len() <= samples.len(),
        forall|i: int| 0 <= i < r.len() ==> r@[i] > 0,
{
    broadcast use vstd::multiset::group_multiset_axioms;
    broadcast use vstd::seq_lib::group_to_multiset_ensures;

    let ghost leq = |a: i64, b: i64| no_larger(a, b);
    let ghost pred = |n: i64| n > 0;
    let mut sorted: Vec<i64> = Vec::new();
    let mut i: usize = 0;
    proof {
        assert(samples@.take(0).filter(pred) =~= Seq::<i64>::empty()) by {
            reveal(Seq::filter);
        }
        assert(sorted@ =~= Seq::<i64>::empty());
    }
    while i < samples.len()
        invariant
            i <= samples.len(),
            leq == (|a: i64, b: i64| no_larger(a, b)),
            pred == (|n: i64| n > 0),
            sorted.len() <= i,
            sorted_by(sorted@, leq),
            sorted@.to_multiset() == samples@.take(i as int).filter(pred).to_multiset(),
            forall|k: int| 0 <= k < sorted.len() ==> sorted@[k] > 0,
        decreases samples.len() - i,
    {
        let n: i64 = samples[i];
        let ghost taken = samples@.take(i as int);
        proof {
            assert(samples@.take(i + 1) =~= taken.push(n));
            assert(taken.push(n).drop_last() =~= taken);
            assert(samples@.take(i + 1).filter(pred) == if pred(n) {
                taken.filter(pred).push(n)
            } else {
                taken.filter(pred)
            }) by {
                reveal(Seq::filter);
            }
        }
        if n > 0 {
            let at: usize = place_in(&sorted, n);
            let ghost before = sorted@;
            sorted.insert(at, n);
            proof {
                assert(sorted@ == before.insert(at as int, n));
                assert(sorted@.to_multiset() =~= before.to_multiset().insert(n)) by {
                    vstd::seq_lib::to_multiset_insert(before, at as int, n);
                }
                assert forall|j: int, k: int| 0 <= j < k < sorted@.len() implies #[trigger] leq(
                    sorted@[j],
                    sorted@[k],
                ) by {
                    if k < at {
                        assert(leq(before[j], before[k]));
                    } else if j > at {
                        assert(leq(before[j - 1], before[k - 1]));
                    } else if j < at && k > at {
                        assert(before[j] <= n <= before[k - 1]);
                    }
                }
                vstd::seq_lib::to_multiset_build(taken.filter(pred), n);
            }
        }
        i = i + 1;
    }
    proof {
        assert(samples@.take(samples.len() as int) =~= samples@);
        assert(total_ordering(leq));
        samples@.filter(pred).lemma_sort_by_ensures(leq);
        vstd::seq_lib::lemma_sorted_unique(sorted@, samples@.filter(pred).sort_by(leq), leq);
    }
    sorted
}

fn sum_between(sorted: &Vec<i64>, from: usize, to: usize) -> (r: i128)
    requires
        from <= to <= sorted.len(),
        sorted.len() <= 0x0FFF_FFFF_FFFF_FFFF,
        forall|i: int| 0 <= i < sorted.len() ==> sorted@[i] > 0,
    ensures
        r == sum_of(sorted@.subrange(from as int, to as int)),
        0 <= r <= (to - from) * 0x7FFF_FFFF_FFFF_FFFF,
{
    let mut sum: i128 = 0;
    let mut i: usize = from;
    proof {
        assert(sorted@.subrange(from as int, from as int) =~= Seq::<i64>::empty());
    }
    while i < to
        invariant
            from <= i <= to <= sorted.len(),
            sorted.len() <= 0x0FFF_FFFF_FFFF_FFFF,
            forall|k: int| 0 <= k < sorted.len() ==> sorted@[k] > 0,
            sum == sum_of(sorted@.subrange(from as int, i as int)),
            0 <= sum <= (i - from) * 0x7FFF_FFFF_FFFF_FFFF,
        decreases to - i,
    {
        proof {
            assert(sorted@.subrange(from as int, i + 1).drop_last() =~= sorted@.subrange(
                from as int,
                i as int,
            ));
        }
        sum = sum + sorted[i] as i128;
        i = i + 1;
    }
    sum
}

/// A movement that the samples of several probes agree on. There is none without a sample.
pub fn robust_deadband_from_samples(samples: &[i64]) -> (r: Option<i64>)
    requires
        samples.len() <= 0x0FFF_FFFF_FFFF_FFFF,
    ensures
        match r {
            Some(n) => robust_count(samples@) == Some(n as int),
            None => robust_count(samples@) is None,
        },
{
    let sorted = sort_positive(samples);
    if sorted.len() == 0 {
        return None;
    }
    let len: usize = sorted.len();
    let mid: usize = len / 2;
    let middle = if len % 2 == 1 {
        double_from_whole(sorted[mid] as u128)
    } else {
        divide(
            &total(
                &double_from_whole(sorted[mid - 1] as u128),
                &double_from_whole(sorted[mid] as u128),
            ),
            &Natural::from_u64(2),
        )
    };
    let trim: usize = len / 5;
    let kept: usize = len - 2 * trim;
    let kept_sum: i128 = sum_between(&sorted, trim, len - trim);
    let one = Natural::from_u64(1);
    proof {
        lemma_nearest_is_something(kept as nat, 1);
    }
    let divisor = nearest_of(&Natural::from_u64(kept as u64), &one);
    let mean = divide(&double_from_whole(kept_sum as u128), &divisor);
    let blended: u64 = round_to_u64(&divide(&total(&middle, &mean), &Natural::from_u64(2)));
    if blended < 1 {
        Some(1)
    } else if blended > i64::MAX as u64 {
        Some(i64::MAX)
    } else {
        Some(blended as i64)
    }
}

fn double_from_whole(n: u128) -> (r: Natural)
    ensures
        r@ == whole_double(n as int),
{
    double_from(&Natural::from_u128(n), &Natural::from_u64(1))
}

/// The largest movement that is believed to be the smallest one: a twentieth of the length
/// of the axis, rounded to the nearest, between six and two hundred and forty counts.
pub open spec fn deadband_limit(span: int) -> int {
    let part = (span + 10) / 20;
    if part < 6 {
        6
    } else if part > 240 {
        240
    } else {
        part
    }
}

pub fn deadband_upper_bound_for_span(span: u64) -> (r: i64)
    ensures
        r == deadband_limit(span as int),
{
    if span >= 4800 {
        return 240;
    }
    let part: u64 = (span + 10) / 20;
    if part < 6 {
        6
    } else if part > 240 {
        240
    } else {
        part as i64
    }
}

/// The smallest movement, from the samples of several probes on an axis of the given
/// length.
pub open spec fn deadband_from(samples: Seq<i64>, span: int) -> int {
    let robust = match robust_count(samples) {
        Some(n) => n,
        None => DEFAULT_DEADBAND_COUNT as int,
    };
    if robust > deadband_limit(span) {
        deadband_limit(span)
    } else {
        robust
    }
}

pub fn estimate_deadband_from_samples(samples: &[i64], span: u64) -> (r: i64)
    requires
        samples.len() <= 0x0FFF_FFFF_FFFF_FFFF,
    ensures
        r == deadband_from(samples@, span as int),
{
    let robust: i64 = match robust_deadband_from_samples(samples) {
        Some(n) => n,
        None => DEFAULT_DEADBAND_COUNT,
    };
    let upper: i64 = deadband_upper_bound_for_span(span);
    if robust > upper {
        upper
    } else {
        robust
    }
}

// ---------------------------------------------------------------- probing both directions

/// The next step of measuring the smallest movements of an axis.
#[derive(Debug, Clone, Copy, PartialEq, Eq, Structural)]
pub enum DeadbandStep {
    /// The axis is pushed against the direction, then probed along it.
    Probe { direction: PtzDirection, preload: PtzDirection },
    Done(DirectionalDeadband),
}

/// The axis is probed in both directions in turn, up as many times as down.
pub open spec fn deadband_step(
    motion: AxisMotion,
    increase: Seq<i64>,
    decrease: Seq<i64>,
    span: int,
) -> DeadbandStep {
    if increase.len() < CALIBRATION_DEADBAND_PROBE_COUNT && increase.len() <= decrease.len() {
        DeadbandStep::Probe { direction: motion.increase, preload: motion.decrease }
    } else if decrease.len() < CALIBRATION_DEADBAND_PROBE_COUNT {
        DeadbandStep::Probe { direction: motion.decrease, preload: motion.increase }
    } else {
        DeadbandStep::Done(
            DirectionalDeadband {
                increase_count: deadband_from(increase, span) as i64,
                decrease_count: deadband_from(decrease, span) as i64,
            },
        )
    }
}

/// Measures the smallest movements of an axis, given what the probes came to.
pub fn estimate_directional_deadband_count(
    motion: AxisMotion,
    increase_samples: &[i64],
    decrease_samples: &[i64],
    span: u64,
) -> (r: DeadbandStep)
    requires
        increase_samples.len() <= 0x0FFF_FFFF_FFFF_FFFF,
        decrease_samples.len() <= 0x0FFF_FFFF_FFFF_FFFF,
    ensures
        r == deadband_step(motion, increase_samples@, decrease_samples@, span as int),
{
    if increase_samples.len() < CALIBRATION_DEADBAND_PROBE_COUNT && increase_samples.len()
        <= decrease_samples.len() {
        DeadbandStep::Probe { direction: motion.increase, preload: motion.decrease }
    } else if decrease_samples.len() < CALIBRATION_DEADBAND_PROBE_COUNT {
        DeadbandStep::Probe { direction: motion.decrease, preload: motion.increase }
    } else {
        DeadbandStep::Done(
            DirectionalDeadband {
                increase_count: estimate_deadband_from_samples(increase_samples, span),
                decrease_count: estimate_deadband_from_samples(decrease_samples, span),
            },
        )
    }
}

// ---------------------------------------------------------------- choosing samples

/// So many of the samples, from the first to the last at even distances, or all of them
/// where there are no more. Of one that is wanted, the middle one.
pub open spec fn spaced(samples: Seq<u64>, target_count: nat) -> Seq<u64> {
    if samples.len() <= target_count {
        samples
    } else if target_count == 1 {
        seq![samples[samples.len() as int / 2]]
    } else {
        Seq::new(target_count, |i: int| samples[spaced_index(i, samples.len() as int, target_count as int)])
    }
}

pub open spec fn spaced_index(i: int, len: int, target_count: int) -> int {
    i * (len - 1) / (target_count - 1)
}

proof fn lemma_spaced_index(i: int, len: int, target_count: int)
    requires
        0 <= i < target_count,
        2 <= target_count < len,
    ensures
        0 <= i * (len - 1),
        0 <= spaced_index(i, len, target_count) < len,
{
    assert(0 <= i * (len - 1) <= (target_count - 1) * (len - 1)) by (nonlinear_arith)
        requires
            0 <= i <= target_count - 1,
            0 <= len - 1,
    ;
    vstd::arithmetic::div_mod::lemma_div_is_ordered(
        i * (len - 1),
        (target_count - 1) * (len - 1),
        target_count - 1,
    );
    vstd::arithmetic::div_mod::lemma_div_multiples_vanish(len - 1, target_count - 1);
    vstd::arithmetic::div_mod::lemma_div_pos_is_pos(i * (len - 1), target_count - 1);
}

pub fn evenly_spaced_samples(samples: &[u64], target_count: usize) -> (r: Vec<u64>)
    ensures
        r@ == spaced(samples@, target_count as nat),
{
    let len: usize = samples.len();
    let mut chosen: Vec<u64> = Vec::new();
    if len <= target_count {
        chosen.extend_from_slice(samples);
        assert(chosen@ =~= samples@);
        return chosen;
    }
    if target_count == 1 {
        chosen.push(samples[len / 2]);
        assert(chosen@ =~= spaced(samples@, 1));
        return chosen;
    }
    let mut i: usize = 0;
    while i < target_count
        invariant
            target_count != 1,
            target_count < len,
            len == samples.len(),
            i <= target_count,
            chosen.len() == i,
            forall|k: int|
                0 <= k < i ==> chosen@[k] == samples@[spaced_index(
                    k,
                    len as int,
                    target_count as int,
                )],
        decreases target_count - i,
    {
        proof {
            lemma_spaced_index(i as int, len as int, target_count as int);
            assert(i * (len - 1) <= 0xFFFF_FFFF_FFFF_FFFF * 0xFFFF_FFFF_FFFF_FFFF)
                by (nonlinear_arith)
                requires
                    0 <= i <= 0xFFFF_FFFF_FFFF_FFFF,
                    0 <= len - 1 <= 0xFFFF_FFFF_FFFF_FFFF,
            ;
        }
        let index: usize = ((i as u128 * (len - 1) as u128) / (target_count - 1) as u128) as usize;
        chosen.push(samples[index]);
        i = i + 1;
    }
    assert(chosen@ =~= spaced(samples@, target_count as nat));
    chosen
}

// ---------------------------------------------------------------- weights of samples

/// The weight of a sample that counts in full.
pub const FULL_WEIGHT: u32 = 1000;

/// The weight of a sample among samples whose middle, taken twice, is given: a sample that
/// differs from the middle by more than a quarter of it counts the less the more it differs.
pub open spec fn weight_near(twice_middle: int, sample: int) -> int {
    let difference = size(2 * sample - twice_middle);
    if 4 * difference <= twice_middle {
        FULL_WEIGHT as int
    } else {
        FULL_WEIGHT * twice_middle / (4 * difference)
    }
}

/// The weight of a sample on an axis, in thousandths: on the pan axis all count in full.
pub open spec fn sample_weight(axis: AxisKind, samples: Seq<i64>, sample: i64) -> int {
    match axis {
        AxisKind::Pan => FULL_WEIGHT as int,
        AxisKind::Tilt => if ascending(samples).len() == 0 {
            FULL_WEIGHT as int
        } else {
            weight_near(median_twice(ascending(samples)), sample as int)
        },
    }
}

fn weight_of(twice_middle: i128, sample: i64) -> (r: u32)
    requires
        0 < twice_middle <= 0xFFFF_FFFF_FFFF_FFFF,
    ensures
        r == weight_near(twice_middle as int, sample as int),
        r <= FULL_WEIGHT,
{
    let doubled: i128 = 2 * (sample as i128);
    let difference: i128 = if doubled >= twice_middle {
        doubled - twice_middle
    } else {
        twice_middle - doubled
    };
    if 4 * difference <= twice_middle {
        return FULL_WEIGHT;
    }
    let weight: i128 = (FULL_WEIGHT as i128 * twice_middle) / (4 * difference);
    proof {
        lemma_weight_bound(twice_middle as int, difference as int);
    }
    weight as u32
}

proof fn lemma_weight_bound(twice_middle: int, difference: int)
    requires
        0 < twice_middle < 4 * difference,
    ensures
        0 <= 1000 * twice_middle / (4 * difference) <= 1000,
{
    assert(0 <= 1000 * twice_middle / (4 * difference) <= 1000) by (nonlinear_arith)
        requires
            0 < twice_middle < 4 * difference,
    ;
}

/// The weights of the samples of a sweep.
pub fn axis_sample_weights(axis: AxisKind, samples: &[i64]) -> (r: Vec<u32>)
    requires
        samples.len() <= 0x0FFF_FFFF_FFFF_FFFF,
    ensures
        r.len() == samples.len(),
        forall|i: int|
            0 <= i < samples.len() ==> #[trigger] r@[i] == sample_weight(
                axis,
                samples@,
                samples@[i],
            ),
{
    let sorted = sort_positive(samples);
    let full = match axis {
        AxisKind::Pan => true,
        AxisKind::Tilt => sorted.len() == 0,
    };
    let twice: i128 = if sorted.len() == 0 {
        1
    } else {
        let mid: usize = sorted.len() / 2;
        if sorted.len() % 2 == 1 {
            2 * (sorted[mid] as i128)
        } else {
            sorted[mid - 1] as i128 + sorted[mid] as i128
        }
    };
    let mut weights: Vec<u32> = Vec::new();
    let mut i: usize = 0;
    while i < samples.len()
        invariant
            i <= samples.len(),
            weights.len() == i,
            sorted@ == ascending(samples@),
            full == (axis == AxisKind::Pan || sorted.len() == 0),
            0 < twice <= 0xFFFF_FFFF_FFFF_FFFF,
            !full ==> twice == median_twice(sorted@),
            forall|k: int|
                0 <= k < i ==> #[trigger] weights@[k] == sample_weight(axis, samples@, samples@[k]),
        decreases samples.len() - i,
    {
        let weight: u32 = if full {
            FULL_WEIGHT
        } else {
            weight_of(twice, samples[i])
        };
        weights.push(weight);
        i = i + 1;
    }
    weights
}

// ---------------------------------------------------------------- quality

/// The largest error that is accepted of a measured calibration: a part of the length of
/// the axis, rounded to the nearest, within bounds.
pub open spec fn quality_limit(axis: AxisKind, span: int) -> int {
    let (hundredths, floor, ceiling) = match axis {
        AxisKind::Pan => (2int, 12int, 220int),
        AxisKind::Tilt => (3int, 8int, 120int),
    };
    let part = (hundredths * span + 50) / 100;
    if part < floor {
        floor
    } else if part > ceiling {
        ceiling
    } else {
        part
    }
}

pub fn axis_quality_threshold_count(axis: AxisKind, span: u64) -> (r: i64)
    ensures
        r == quality_limit(axis, span as int),
{
    let (hundredths, floor, ceiling): (u64, i64, i64) = match axis {
        AxisKind::Pan => (2, 12, 220),
        AxisKind::Tilt => (3, 8, 120),
    };
    if span > 100000 {
        return ceiling;
    }
    let part: i64 = ((hundredths * span + 50) / 100) as i64;
    if part < floor {
        floor
    } else if part > ceiling {
        ceiling
    } else {
        part
    }
}

/// What is said of an axis where a measured calibration is refused.
pub open spec fn quality_text(axis: AxisKind, span: int, error_count: int) -> Seq<char> {
    match axis {
        AxisKind::Pan => "pan_p95="@ + dec_int(error_count) + " (max="@ + dec_int(
            quality_limit(axis, span),
        ) + ", ratio=0.0200, floor=12, ceiling=220, span="@ + dec_int(span) + ")"@,
        AxisKind::Tilt => "tilt_p95="@ + dec_int(error_count) + " (max="@ + dec_int(
            quality_limit(axis, span),
        ) + ", ratio=0.0300, floor=8, ceiling=120, span="@ + dec_int(span) + ")"@,
    }
}

/// A measured calibration is refused where the error on either axis is too large.
pub open spec fn quality_error(
    pan_span: int,
    tilt_span: int,
    pan_error: int,
    tilt_error: int,
) -> Option<ErrorModel> {
    if pan_error <= quality_limit(AxisKind::Pan, pan_span) && tilt_error <= quality_limit(
        AxisKind::Tilt,
        tilt_span,
    ) {
        None
    } else {
        Some(
            error_model(
                ErrorKind::UnexpectedResponse,
                "measured calibration rejected by quality gate: "@ + quality_text(
                    AxisKind::Pan,
                    pan_span,
                    pan_error,
                ) + "; "@ + quality_text(AxisKind::Tilt, tilt_span, tilt_error),
            ),
        )
    }
}

fn describe_quality(axis: AxisKind, span: u64, error_count: i64) -> (r: String)
    ensures
        r@ == quality_text(axis, span as int, error_count as int),
{
    let limit: i64 = axis_quality_threshold_count(axis, span);
    let (head, ratio) = match axis {
        AxisKind::Pan => ("pan_p95=", ", ratio=0.0200, floor=12, ceiling=220, span="),
        AxisKind::Tilt => ("tilt_p95=", ", ratio=0.0300, floor=8, ceiling=120, span="),
    };
    let text = join3(head, dec_i64(error_count).as_str(), " (max=");
    let text = join3(text.as_str(), dec_i64(limit).as_str(), ratio);
    join3(text.as_str(), dec_u64(span).as_str(), ")")
}

pub open spec fn gate_error(r: AppResult<()>) -> Option<ErrorModel> {
    match r {
        Ok(_) => None,
        Err(error) => Some(error@),
    }
}

pub fn validate_measured_calibration_quality(
    pan_span: u64,
    tilt_span: u64,
    pan_residual_p95_count: i64,
    tilt_residual_p95_count: i64,
) -> (r: AppResult<()>)
    ensures
        gate_error(r) == quality_error(
            pan_span as int,
            tilt_span as int,
            pan_residual_p95_count as int,
            tilt_residual_p95_count as int,
        ),
{
    if pan_residual_p95_count <= axis_quality_threshold_count(AxisKind::Pan, pan_span)
        && tilt_residual_p95_count <= axis_quality_threshold_count(AxisKind::Tilt, tilt_span) {
        return Ok(());
    }
    let pan = describe_quality(AxisKind::Pan, pan_span, pan_residual_p95_count);
    let tilt = describe_quality(AxisKind::Tilt, tilt_span, tilt_residual_p95_count);
    let text = join3("measured calibration rejected by quality gate: ", pan.as_str(), "; ");
    Err(
        AppError::with_message(
            ErrorKind::UnexpectedResponse,
            join2(text.as_str(), tilt.as_str()),
        ),
    )
}

// ---------------------------------------------------------------- without measuring

/// The ends of an axis.
#[derive(Debug, Clone, Copy, PartialEq, Eq, Structural)]
pub struct AxisCountRange {
    pub min_count: i64,
    pub max_count: i64,
}

/// The ends of an axis before its position is taken into account: those that the camera
/// reports, or the usual length about its position.
pub open spec fn plain_ends(
    range: Option<NumericRange>,
    current_position: Option<i64>,
    default_span_count: int,
) -> (int, int) {
    match range {
        Some(known) => if known.max > known.min {
            (known.min as int, known.max as int)
        } else {
            (known.min as int, known.min + 1)
        },
        None => {
            let center = match current_position {
                Some(n) => n as int,
                None => 0,
            };
            let half = if default_span_count >= 2 {
                default_span_count / 2
            } else {
                1
            };
            (center - half, center + half)
        },
    }
}

/// The ends of an axis, which hold its position.
pub open spec fn range_ends(
    range: Option<NumericRange>,
    current_position: Option<i64>,
    default_span_count: int,
) -> (int, int) {
    let (low, high) = plain_ends(range, current_position, default_span_count);
    match current_position {
        Some(n) => (
            if n < low {
                n as int
            } else {
                low
            },
            if n > high {
                n as int
            } else {
                high
            },
        ),
        None => (low, high),
    }
}

/// The ends of an axis where it was not measured. They must be numbers that fit.
pub fn build_axis_count_range(
    range: Option<&NumericRange>,
    current_position: Option<i64>,
    default_span_count: i64,
) -> (r: AxisCountRange)
    requires
        ({
            let known = match range {
                Some(inner) => Some(*inner),
                None => None,
            };
            let ends = plain_ends(known, current_position, default_span_count as int);
            i64::MIN <= ends.0 && ends.1 <= i64::MAX
        }),
    ensures
        ({
            let known = match range {
                Some(inner) => Some(*inner),
                None => None,
            };
            (r.min_count as int, r.max_count as int) == range_ends(
                known,
                current_position,
                default_span_count as int,
            )
        }),
        r.min_count < r.max_count,
{
    let (low, high): (i64, i64) = match range {
        Some(known) => if known.max > known.min {
            (known.min, known.max)
        } else {
            (known.min, known.min + 1)
        },
        None => {
            let center: i64 = match current_position {
                Some(n) => n,
                None => 0,
            };
            let half: i64 = if default_span_count >= 2 {
                default_span_count / 2
            } else {
                1
            };
            (center - half, center + half)
        },
    };
    match current_position {
        Some(n) => AxisCountRange {
            min_count: if n < low {
                n
            } else {
                low
            },
            max_count: if n > high {
                n
            } else {
                high
            },
        },
        None => AxisCountRange { min_count: low, max_count: high },
    }
}

// ---------------------------------------------------------------- laws

/// Choosing samples gives as many as are wanted, or all of them. It begins with the first
/// sample and ends with the last.
pub proof fn law_chosen_samples_reach_both_ends(samples: Seq<u64>, target_count: nat)
    ensures
        spaced(samples, target_count).len() == if samples.len() <= target_count {
            samples.len()
        } else {
            target_count
        },
        samples.len() > 0 && target_count >= 2 ==> spaced(samples, target_count).first()
            == samples.first() && spaced(samples, target_count).last() == samples.last(),
{
    if samples.len() > target_count && target_count >= 2 {
        let len = samples.len() as int;
        let count = target_count as int;
        assert(spaced_index(0, len, count) == 0) by {
            vstd::arithmetic::div_mod::lemma_div_of0(count - 1);
        }
        vstd::arithmetic::div_mod::lemma_div_multiples_vanish(len - 1, count - 1);
        assert(spaced_index(count - 1, len, count) == len - 1);
    }
}

/// A sweep ends: each pulse that is noted brings it nearer to its last step, and it never
/// comes back from the furthest count.
pub proof fn law_sweep_ends(sweep: AxisSweep, before: i64, after: i64)
    requires
        !sweep_over(sweep),
    ensures
        swept(sweep, before, after).steps == sweep.steps + 1,
        sweep.steps + 1 >= CALIBRATION_SWEEP_MAX_STEPS ==> sweep_over(swept(sweep, before, after)),
        sweep.toward_min ==> swept(sweep, before, after).best <= sweep.best && swept(
            sweep,
            before,
            after,
        ).best <= after,
        !sweep.toward_min ==> swept(sweep, before, after).best >= sweep.best && swept(
            sweep,
            before,
            after,
        ).best >= after,
{
}

/// Three pulses in a row that do not move the axis end a sweep.
pub proof fn law_stalls_end_a_sweep(sweep: AxisSweep, count: i64)
    requires
        !sweep_over(sweep),
        sweep.steps + 3 <= u64::MAX,
    ensures
        sweep_over(swept(swept(swept(sweep, count, count), count, count), count, count)),
{
}

/// No more than nine sweeps are made to each end, and the ends that are found hold those of
/// every sweep.
pub proof fn law_bounds_end(axis: AxisKind, mins: Seq<i64>, maxs: Seq<i64>, samples: int)
    ensures
        mins.len() == maxs.len() && maxs.len() >= CALIBRATION_SWEEP_PASSES_MAX ==> bounds_step(
            axis,
            mins,
            maxs,
            samples,
        ) is Done,
        bounds_step(axis, mins, maxs, samples) matches BoundsModel::Done(Ok(ends)) ==> ends.0
            < ends.1 && (forall|i: int| 0 <= i < mins.len() ==> ends.0 <= #[trigger] mins[i]) && (
        forall|i: int| 0 <= i < maxs.len() ==> #[trigger] maxs[i] <= ends.1),
{
    if mins.len() > 0 {
        lemma_furthest(true, mins);
    }
    if maxs.len() > 0 {
        lemma_furthest(false, maxs);
    }
}

proof fn lemma_furthest(toward_min: bool, counts: Seq<i64>)
    requires
        counts.len() > 0,
    ensures
        forall|i: int|
            0 <= i < counts.len() ==> if toward_min {
                furthest(toward_min, counts) <= #[trigger] counts[i]
            } else {
                furthest(toward_min, counts) >= counts[i]
            },
    decreases counts.len(),
{
    if counts.len() > 1 {
        lemma_furthest(toward_min, counts.drop_last());
        assert forall|i: int| 0 <= i < counts.len() implies if toward_min {
            furthest(toward_min, counts) <= #[trigger] counts[i]
        } else {
            furthest(toward_min, counts) >= counts[i]
        } by {
            if i < counts.len() - 1 {
                assert(counts[i] == counts.drop_last()[i]);
            }
        }
    }
}

/// The two directions that are found are the two that were tried, and finding them takes at
/// most four pulses.
pub proof fn law_directions_are_opposite(axis: AxisKind, readings: Seq<i64>, pulses: int)
    ensures
        detect_step(axis, readings, pulses) matches DetectModel::Done(Ok(motion)) ==> {
            let (primary, secondary) = tried_directions(axis);
            motion == (AxisMotion { increase: primary, decrease: secondary }) || motion == (
            AxisMotion { increase: secondary, decrease: primary })
        },
        readings.len() >= 4 && pulses >= readings.len() ==> detect_step(
            axis,
            readings,
            pulses,
        ) is Done,
{
}

/// An axis is pushed towards where it was, and slower when it is nearer.
pub proof fn law_restoring_goes_home(
    motion: AxisMotion,
    home: i64,
    moves: int,
    near: i64,
    far: i64,
)
    requires
        size(home - near) <= size(home - far),
    ensures
        restore_step(motion, home, moves, Some(far)) matches RestoreStep::Move {
            direction,
            speed,
        } ==> (home > far ==> direction == motion.increase) && (home < far ==> direction
            == motion.decrease) && (restore_step(
            motion,
            home,
            moves,
            Some(near),
        ) matches RestoreStep::Move { direction: _, speed: slower } ==> slower <= speed),
        moves >= CALIBRATION_RESTORE_MAX_STEPS ==> restore_step(motion, home, moves, Some(far))
            == RestoreStep::Done,
{
}

/// The limits on errors and on the smallest movement grow with the length of the axis and
/// stay within their bounds.
pub proof fn law_limits_grow_with_the_axis(axis: AxisKind, shorter: int, longer: int)
    requires
        0 <= shorter <= longer,
    ensures
        quality_limit(axis, shorter) <= quality_limit(axis, longer),
        deadband_limit(shorter) <= deadband_limit(longer),
        6 <= deadband_limit(shorter) <= 240,
        8 <= quality_limit(axis, shorter) <= 220,
{
}

/// The estimate of the smallest movement lies between one count and the limit of its axis.
pub proof fn law_deadband_is_bounded(samples: Seq<i64>, span: int)
    ensures
        1 <= deadband_from(samples, span) <= deadband_limit(span),
{
}

/// A sample never counts more than in full, on the pan axis it counts in full, and on the
/// tilt axis one that is further above the middle does not count more.
pub proof fn law_weights_fall_with_the_difference(
    twice_middle: int,
    nearer: int,
    further: int,
)
    requires
        0 < twice_middle,
        twice_middle <= 2 * nearer <= 2 * further,
    ensures
        weight_near(twice_middle, further) <= weight_near(twice_middle, nearer) <= FULL_WEIGHT,
{
    let near = 2 * nearer - twice_middle;
    let far = 2 * further - twice_middle;
    if 4 * near > twice_middle {
        lemma_weight_bound(twice_middle, near);
        assert(1000 * twice_middle / (4 * far) <= 1000 * twice_middle / (4 * near)) by (
            nonlinear_arith)
            requires
                0 < twice_middle,
                0 < near <= far,
        ;
    } else if 4 * far > twice_middle {
        lemma_weight_bound(twice_middle, far);
    }
}

} // verus!
