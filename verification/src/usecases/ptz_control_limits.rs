//! How fast and how long the camera is pushed for an error, when it is near its target, and
//! when it stands at an end of an axis.
//!
//! An error that is a fraction of a count is rounded up before it is compared with a number
//! of counts. Tolerances are kept in tenths of a count.
use crate::model::PtzDirection;
use crate::usecases::ptz_control_loop::{RiskyPushes, Swing, OSCILLATION_DAMPING_REVERSAL_SUM};
use vstd::prelude::*;

verus! {

/// Bounds on the numbers that a difference of two counts can be.
pub open spec fn is_difference(n: int) -> bool {
    -0x2_0000_0000_0000_0000 <= n <= 0x2_0000_0000_0000_0000
}

/// Tolerances that are within reason: less than a count for each number there is.
pub open spec fn is_tolerance(tenths: int) -> bool {
    0 <= tenths <= 0xA_0000_0000_0000_0000
}

pub open spec fn magnitude_of(n: int) -> int {
    if n < 0 {
        -n
    } else {
        n
    }
}

fn magnitude(n: i128) -> (r: i128)
    requires
        is_difference(n as int),
    ensures
        r == magnitude_of(n as int),
{
    if n < 0 {
        -n
    } else {
        n
    }
}

/// How far the target is from a count.
pub fn measured_error(target_count: i64, count: i64) -> (r: i128)
    ensures
        r == target_count - count,
        is_difference(r as int),
{
    target_count as i128 - count as i128
}

// ---------------------------------------------------------------- ladders

/// The highest speed for an error.
pub open spec fn speed_cap(error_count: u64) -> u8 {
    if error_count <= 180 {
        1
    } else if error_count <= 320 {
        2
    } else if error_count <= 900 {
        3
    } else if error_count <= 1500 {
        4
    } else if error_count <= 2500 {
        6
    } else {
        8
    }
}

/// How long a push for an error is, in milliseconds.
pub open spec fn control_pulse(error_count: u64) -> u64 {
    if error_count <= 90 {
        0
    } else if error_count <= 180 {
        20
    } else if error_count <= 320 {
        35
    } else if error_count <= 520 {
        55
    } else if error_count <= 900 {
        90
    } else if error_count <= 1500 {
        110
    } else {
        140
    }
}

/// How long a step of the loop is for an error, in milliseconds.
pub open spec fn control_step(error_count: u64) -> u64 {
    if error_count <= 90 {
        140
    } else if error_count <= 180 {
        130
    } else if error_count <= 320 {
        120
    } else if error_count <= 900 {
        110
    } else {
        130
    }
}

pub fn speed_cap_for_error(error_count: u64) -> (r: u8)
    ensures
        r == speed_cap(error_count),
{
    if error_count <= 180 {
        1
    } else if error_count <= 320 {
        2
    } else if error_count <= 900 {
        3
    } else if error_count <= 1500 {
        4
    } else if error_count <= 2500 {
        6
    } else {
        8
    }
}

pub fn control_pulse_ms_for_error(error_count: u64) -> (r: u64)
    ensures
        r == control_pulse(error_count),
{
    if error_count <= 90 {
        0
    } else if error_count <= 180 {
        20
    } else if error_count <= 320 {
        35
    } else if error_count <= 520 {
        55
    } else if error_count <= 900 {
        90
    } else if error_count <= 1500 {
        110
    } else {
        140
    }
}

pub fn control_step_ms_for_error(error_count: u64) -> (r: u64)
    ensures
        r == control_step(error_count),
{
    if error_count <= 90 {
        140
    } else if error_count <= 180 {
        130
    } else if error_count <= 320 {
        120
    } else if error_count <= 900 {
        110
    } else {
        130
    }
}

/// A phase of a movement, by how far off the camera is.
#[derive(Debug, Clone, Copy, PartialEq, Eq, Structural)]
pub struct ControlPhase {
    /// The camera is moved by distances.
    pub fine: bool,
    /// The length of a push is taken from what pushes did before.
    pub learned_pulses: bool,
    /// Pushes go at the lowest speed.
    pub near_target: bool,
}

pub open spec fn larger_magnitude(a: int, b: int) -> int {
    if magnitude_of(a) >= magnitude_of(b) {
        magnitude_of(a)
    } else {
        magnitude_of(b)
    }
}

pub open spec fn phase_of(
    supports_relative_move: bool,
    pan_error: int,
    tilt_error: int,
    mismatch_cooldown_steps: u64,
) -> ControlPhase {
    let error = larger_magnitude(pan_error, tilt_error);
    ControlPhase {
        fine: supports_relative_move && error <= 240 && mismatch_cooldown_steps == 0,
        learned_pulses: !supports_relative_move && error <= 360,
        near_target: !supports_relative_move && error <= 420,
    }
}

pub fn control_phase(
    supports_relative_move: bool,
    pan_error: i128,
    tilt_error: i128,
    mismatch_cooldown_steps: u64,
) -> (r: ControlPhase)
    requires
        is_difference(pan_error as int),
        is_difference(tilt_error as int),
    ensures
        r == phase_of(
            supports_relative_move,
            pan_error as int,
            tilt_error as int,
            mismatch_cooldown_steps,
        ),
{
    let pan: i128 = magnitude(pan_error);
    let tilt: i128 = magnitude(tilt_error);
    let error: i128 = if pan >= tilt {
        pan
    } else {
        tilt
    };
    ControlPhase {
        fine: supports_relative_move && error <= 240 && mismatch_cooldown_steps == 0,
        learned_pulses: !supports_relative_move && error <= 360,
        near_target: !supports_relative_move && error <= 420,
    }
}

// ---------------------------------------------------------------- tolerances

/// The error that is good enough on an axis, in tenths: the given one, at least a count, or
/// where a calibration knows the smallest movement, that with three tenths of the tolerance,
/// but no more than sixty counts of it.
pub open spec fn success_tenths(base_count: u64, deadband_count: u64, tolerance_count: i64) -> int {
    let base = if base_count < 1 {
        10
    } else {
        10 * base_count
    };
    let margin = if tolerance_count < 0 {
        0
    } else {
        3 * tolerance_count
    };
    let floor = if 10 * deadband_count + margin > 600 {
        600
    } else {
        10 * deadband_count + margin
    };
    if deadband_count == 0 || base >= floor {
        base
    } else {
        floor
    }
}

pub fn calibrated_success_tolerance(
    base_count: u64,
    deadband_count: u64,
    tolerance_count: i64,
) -> (r: u128)
    ensures
        r == success_tenths(base_count, deadband_count, tolerance_count),
        is_tolerance(r as int),
{
    let base: u128 = if base_count < 1 {
        10
    } else {
        10 * (base_count as u128)
    };
    let margin: u128 = if tolerance_count < 0 {
        0
    } else {
        3 * (tolerance_count as u128)
    };
    let sum: u128 = 10 * (deadband_count as u128) + margin;
    let floor: u128 = if sum > 600 {
        600
    } else {
        sum
    };
    if deadband_count == 0 || base >= floor {
        base
    } else {
        floor
    }
}

// ---------------------------------------------------------------- swinging

/// The range about the target in which a change of sign is a reversal, in tenths: four
/// times the error that is good enough, and at least a hundred and twenty counts.
pub open spec fn detect_range(success_tenths: int, tolerance_count: int) -> int {
    let band = if success_tenths > 0 {
        success_tenths
    } else {
        10 * tolerance_count
    };
    if 4 * band < 1200 {
        1200
    } else {
        4 * band
    }
}

/// An error is beyond the tolerance and within the range.
pub open spec fn in_band(error: int, success_tenths: int, tolerance_count: int) -> bool {
    magnitude_of(error) > tolerance_count && 10 * magnitude_of(error) <= detect_range(
        success_tenths,
        tolerance_count,
    )
}

/// The error changed its sign, and is in the band before and after.
pub open spec fn is_reversal(
    before: Option<i128>,
    now: int,
    tolerance_count: int,
    success_tenths: int,
) -> bool {
    before matches Some(earlier) && ((earlier > 0 && now < 0) || (earlier < 0 && now > 0))
        && in_band(earlier as int, success_tenths, tolerance_count) && in_band(
        now,
        success_tenths,
        tolerance_count,
    )
}

/// How the error of an axis changed.
pub open spec fn swing_of(
    before: Option<i128>,
    now: int,
    tolerance_count: int,
    success_tenths: int,
) -> Swing {
    if is_reversal(before, now, tolerance_count, success_tenths) {
        Swing::Reversed
    } else if 10 * magnitude_of(now) > detect_range(success_tenths, tolerance_count) {
        Swing::Far
    } else {
        Swing::Calm
    }
}

pub fn swing_between(
    before: Option<i128>,
    now: i128,
    tolerance_count: i64,
    success_tenths: u128,
) -> (r: Swing)
    requires
        tolerance_count > 0,
        is_tolerance(success_tenths as int),
        is_difference(now as int),
        before matches Some(earlier) ==> is_difference(earlier as int),
    ensures
        r == swing_of(before, now as int, tolerance_count as int, success_tenths as int),
{
    let band: i128 = if success_tenths > 0 {
        success_tenths as i128
    } else {
        10 * (tolerance_count as i128)
    };
    let range: i128 = if 4 * band < 1200 {
        1200
    } else {
        4 * band
    };
    let size: i128 = magnitude(now);
    let now_in = size > tolerance_count as i128 && 10 * size <= range;
    let reversed = match before {
        Some(earlier) => {
            let earlier_size: i128 = magnitude(earlier);
            let earlier_in = earlier_size > tolerance_count as i128 && 10 * earlier_size <= range;
            ((earlier > 0 && now < 0) || (earlier < 0 && now > 0)) && earlier_in && now_in
        },
        None => false,
    };
    if reversed {
        Swing::Reversed
    } else if 10 * size > range {
        Swing::Far
    } else {
        Swing::Calm
    }
}

/// Both errors are within three times the error that is good enough.
pub open spec fn within_damping(
    pan_error: int,
    tilt_error: int,
    pan_tenths: int,
    tilt_tenths: int,
) -> bool {
    pan_tenths > 0 && tilt_tenths > 0 && 10 * magnitude_of(pan_error) <= 3 * pan_tenths && 10
        * magnitude_of(tilt_error) <= 3 * tilt_tenths
}

/// Swinging about the target is damped after some reversals, when the target is near.
pub fn oscillation_damping_active(
    pan_reversals: u64,
    tilt_reversals: u64,
    pan_error: i128,
    tilt_error: i128,
    pan_success_tenths: u128,
    tilt_success_tenths: u128,
) -> (r: bool)
    requires
        is_difference(pan_error as int),
        is_difference(tilt_error as int),
        is_tolerance(pan_success_tenths as int),
        is_tolerance(tilt_success_tenths as int),
    ensures
        r == (pan_reversals + tilt_reversals >= OSCILLATION_DAMPING_REVERSAL_SUM && within_damping(
            pan_error as int,
            tilt_error as int,
            pan_success_tenths as int,
            tilt_success_tenths as int,
        )),
{
    if pan_reversals.saturating_add(tilt_reversals) < OSCILLATION_DAMPING_REVERSAL_SUM {
        return false;
    }
    if pan_success_tenths == 0 || tilt_success_tenths == 0 {
        return false;
    }
    10 * magnitude(pan_error) <= 3 * (pan_success_tenths as i128) && 10 * magnitude(tilt_error) <= 3
        * (tilt_success_tenths as i128)
}

// ---------------------------------------------------------------- ends

/// Where the camera stands on its axes, and how far from its target.
#[derive(Debug, Clone, Copy, PartialEq, Eq, Structural)]
pub struct EdgePushContext {
    pub pan_measure: i64,
    pub pan_min_count: i128,
    pub pan_max_count: i128,
    pub pan_error_measured: i128,
    pub pan_success_tenths: u128,
    pub tilt_measure: i64,
    pub tilt_min_count: i128,
    pub tilt_max_count: i128,
    pub tilt_error_measured: i128,
    pub tilt_success_tenths: u128,
}

impl EdgePushContext {
    /// The numbers are ones that counts can give.
    pub open spec fn fits(self) -> bool {
        &&& is_difference(self.pan_min_count as int)
        &&& is_difference(self.pan_max_count as int)
        &&& self.pan_min_count <= self.pan_max_count
        &&& is_difference(self.pan_error_measured as int)
        &&& is_tolerance(self.pan_success_tenths as int)
        &&& is_difference(self.tilt_min_count as int)
        &&& is_difference(self.tilt_max_count as int)
        &&& self.tilt_min_count <= self.tilt_max_count
        &&& is_difference(self.tilt_error_measured as int)
        &&& is_tolerance(self.tilt_success_tenths as int)
    }
}

/// The width of the edge of the pan axis, in hundredths of a count: three hundredths of its
/// length, between forty and three hundred and twenty counts.
pub open spec fn pan_edge_hundredths(min_count: int, max_count: int) -> int {
    let width = 3 * (max_count - min_count);
    if width < 4000 {
        4000
    } else if width > 32000 {
        32000
    } else {
        width
    }
}

/// The width of the edge of the tilt axis.
pub const TILT_EDGE_CONTROL_MARGIN_COUNT: i64 = 120;

/// The camera stands near an end and the target lies beyond it by more than is good enough:
/// a push in that direction would go against the end.
pub open spec fn saturates(context: EdgePushContext, direction: PtzDirection) -> bool {
    let pan_edge = pan_edge_hundredths(
        context.pan_min_count as int,
        context.pan_max_count as int,
    );
    match direction {
        PtzDirection::Left => 100 * (context.pan_measure - context.pan_min_count) <= pan_edge && 10
            * context.pan_error_measured < -(context.pan_success_tenths as int),
        PtzDirection::Right => 100 * (context.pan_max_count - context.pan_measure) <= pan_edge && 10
            * context.pan_error_measured > context.pan_success_tenths,
        PtzDirection::Up => context.tilt_max_count - context.tilt_measure
            <= TILT_EDGE_CONTROL_MARGIN_COUNT && 10 * context.tilt_error_measured
            > context.tilt_success_tenths,
        PtzDirection::Down => context.tilt_measure - context.tilt_min_count
            <= TILT_EDGE_CONTROL_MARGIN_COUNT && 10 * context.tilt_error_measured < -(
        context.tilt_success_tenths as int),
        _ => false,
    }
}

/// A push in a direction would go against the end of its axis.
pub fn edge_saturation_detected(direction: PtzDirection, context: &EdgePushContext) -> (r: bool)
    requires
        context.fits(),
    ensures
        r == saturates(*context, direction),
{
    let width: i128 = 3 * (context.pan_max_count - context.pan_min_count);
    let pan_edge: i128 = if width < 4000 {
        4000
    } else if width > 32000 {
        32000
    } else {
        width
    };
    let pan: i128 = context.pan_measure as i128;
    let tilt: i128 = context.tilt_measure as i128;
    let tilt_edge: i128 = TILT_EDGE_CONTROL_MARGIN_COUNT as i128;
    let pan_tenths: i128 = context.pan_success_tenths as i128;
    let tilt_tenths: i128 = context.tilt_success_tenths as i128;
    match direction {
        PtzDirection::Left => 100 * (pan - context.pan_min_count) <= pan_edge && 10
            * context.pan_error_measured < -pan_tenths,
        PtzDirection::Right => 100 * (context.pan_max_count - pan) <= pan_edge && 10
            * context.pan_error_measured > pan_tenths,
        PtzDirection::Up => context.tilt_max_count - tilt <= tilt_edge && 10
            * context.tilt_error_measured > tilt_tenths,
        PtzDirection::Down => tilt - context.tilt_min_count <= tilt_edge && 10
            * context.tilt_error_measured < -tilt_tenths,
        _ => false,
    }
}

/// The directions in which a push would go against the end of its axis.
pub open spec fn risky_in(context: EdgePushContext) -> RiskyPushes {
    RiskyPushes {
        left: saturates(context, PtzDirection::Left),
        right: saturates(context, PtzDirection::Right),
        up: saturates(context, PtzDirection::Up),
        down: saturates(context, PtzDirection::Down),
    }
}

pub fn risky_pushes(context: &EdgePushContext) -> (r: RiskyPushes)
    requires
        context.fits(),
    ensures
        r == risky_in(*context),
{
    RiskyPushes {
        left: edge_saturation_detected(PtzDirection::Left, context),
        right: edge_saturation_detected(PtzDirection::Right, context),
        up: edge_saturation_detected(PtzDirection::Up, context),
        down: edge_saturation_detected(PtzDirection::Down, context),
    }
}

/// The camera stands near the end of the tilt axis to which a push goes.
pub fn tilt_edge_ahead(direction: PtzDirection, context: &EdgePushContext) -> (r: bool)
    requires
        context.fits(),
    ensures
        r == match direction {
            PtzDirection::Up => context.tilt_max_count - context.tilt_measure
                <= TILT_EDGE_CONTROL_MARGIN_COUNT,
            PtzDirection::Down => context.tilt_measure - context.tilt_min_count
                <= TILT_EDGE_CONTROL_MARGIN_COUNT,
            _ => false,
        },
{
    let tilt: i128 = context.tilt_measure as i128;
    let tilt_edge: i128 = TILT_EDGE_CONTROL_MARGIN_COUNT as i128;
    match direction {
        PtzDirection::Up => context.tilt_max_count - tilt <= tilt_edge,
        PtzDirection::Down => tilt - context.tilt_min_count <= tilt_edge,
        _ => false,
    }
}

// ---------------------------------------------------------------- standing still

pub open spec fn between(n: int, low: int, high: int) -> int {
    if n < low {
        low
    } else if n > high {
        high
    } else {
        n
    }
}

/// By how much an axis may move between two readings and still stand still, in hundredths
/// of a count: a part of the tolerance or of the smallest movement, whichever is larger.
pub open spec fn stable_hundredths(
    tolerance_count: int,
    pan_deadband_count: int,
    tilt_deadband_count: int,
) -> int {
    let deadband_count = if pan_deadband_count >= tilt_deadband_count {
        pan_deadband_count
    } else {
        tilt_deadband_count
    };
    let by_tolerance = between(35 * tolerance_count, 200, 2400);
    let by_deadband = between(12 * deadband_count, 200, 2400);
    if by_tolerance >= by_deadband {
        by_tolerance
    } else {
        by_deadband
    }
}

fn clamped(n: i128, low: i128, high: i128) -> (r: i128)
    ensures
        r == between(n as int, low as int, high as int),
{
    if n < low {
        low
    } else if n > high {
        high
    } else {
        n
    }
}

pub fn position_stable_threshold_count(
    tolerance_count: i64,
    pan_deadband_count: u64,
    tilt_deadband_count: u64,
) -> (r: i128)
    ensures
        r == stable_hundredths(
            tolerance_count as int,
            pan_deadband_count as int,
            tilt_deadband_count as int,
        ),
{
    let deadband_count: u64 = if pan_deadband_count >= tilt_deadband_count {
        pan_deadband_count
    } else {
        tilt_deadband_count
    };
    let by_tolerance: i128 = clamped(35 * (tolerance_count as i128), 200, 2400);
    let by_deadband: i128 = clamped(12 * (deadband_count as i128), 200, 2400);
    if by_tolerance >= by_deadband {
        by_tolerance
    } else {
        by_deadband
    }
}

// ---------------------------------------------------------------- laws

/// A larger error never calls for a lower speed or a shorter push, and no push is longer
/// than a fifth of a second or a step.
pub proof fn law_pushes_grow_with_the_error(smaller: u64, larger: u64)
    requires
        smaller <= larger,
    ensures
        speed_cap(smaller) <= speed_cap(larger),
        control_pulse(smaller) <= control_pulse(larger),
        1 <= speed_cap(smaller) <= 8,
        control_pulse(smaller) <= 140,
        110 <= control_step(smaller) <= 140,
{
}

/// What is good enough is never less than a count, and grows with the tolerance.
pub proof fn law_success_tolerance(
    base_count: u64,
    deadband_count: u64,
    tolerance_count: i64,
    more: i64,
)
    requires
        tolerance_count <= more,
    ensures
        success_tenths(base_count, deadband_count, tolerance_count) >= 10,
        success_tenths(base_count, deadband_count, tolerance_count) >= 10 * base_count,
        success_tenths(base_count, deadband_count, tolerance_count) <= success_tenths(
            base_count,
            deadband_count,
            more,
        ),
{
}

/// On one axis, no two opposite pushes are risky at once.
pub proof fn law_one_end_at_a_time(context: EdgePushContext)
    ensures
        !(saturates(context, PtzDirection::Left) && saturates(context, PtzDirection::Right)),
        !(saturates(context, PtzDirection::Up) && saturates(context, PtzDirection::Down)),
{
}

/// Near enough to the target, no push is risky.
pub proof fn law_no_risk_near_the_target(context: EdgePushContext, direction: PtzDirection)
    requires
        10 * magnitude_of(context.pan_error_measured as int) <= context.pan_success_tenths,
        10 * magnitude_of(context.tilt_error_measured as int) <= context.tilt_success_tenths,
    ensures
        !saturates(context, direction),
{
}

} // verus!
