//! Where a position stands between the ends of its axis, and what a calibration says of the
//! smallest movement there.
use crate::model::{CalibrationParamsModel, NumericRange};
use crate::usecases::ptz_calibration::StoredCalibration;
use vstd::prelude::*;

verus! {

#[derive(Debug, Clone, Copy, PartialEq, Eq, Structural)]
pub enum PositionBand {
    Low,
    Mid,
    High,
}

/// How far the ends of an axis are moved out, so that no reading lies beyond them.
pub const POSITION_MARGIN_COUNT: i64 = 120;

/// The largest deadband that is taken over from a calibration.
pub const DEADBAND_HINT_MAX_COUNT: u64 = 200;

pub open spec fn min_of(a: int, b: int) -> int {
    if a <= b {
        a
    } else {
        b
    }
}

pub open spec fn max_of(a: int, b: int) -> int {
    if a >= b {
        a
    } else {
        b
    }
}

fn min_i128(a: i128, b: i128) -> (r: i128)
    ensures
        r == min_of(a as int, b as int),
{
    if a <= b {
        a
    } else {
        b
    }
}

fn max_i128(a: i128, b: i128) -> (r: i128)
    ensures
        r == max_of(a as int, b as int),
{
    if a >= b {
        a
    } else {
        b
    }
}

/// The lowest and the highest fifth of an axis are its edges. An axis of no length has none.
pub open spec fn band_of(position: int, min_count: int, max_count: int) -> PositionBand {
    let low = min_of(min_count, max_count);
    let high = max_of(min_count, max_count);
    if low == high {
        PositionBand::Mid
    } else if 5 * (position - low) <= high - low {
        PositionBand::Low
    } else if 5 * (high - position) <= high - low {
        PositionBand::High
    } else {
        PositionBand::Mid
    }
}

/// The part of its axis in which a position lies.
pub fn classify_position_band(position: i64, min_count: i128, max_count: i128) -> (r: PositionBand)
    requires
        -0x1_0000_0000_0000_0000 <= min_count <= 0x1_0000_0000_0000_0000,
        -0x1_0000_0000_0000_0000 <= max_count <= 0x1_0000_0000_0000_0000,
    ensures
        r == band_of(position as int, min_count as int, max_count as int),
{
    let low: i128 = min_i128(min_count, max_count);
    let high: i128 = max_i128(min_count, max_count);
    let at: i128 = position as i128;
    if low == high {
        PositionBand::Mid
    } else if 5 * (at - low) <= high - low {
        PositionBand::Low
    } else if 5 * (high - at) <= high - low {
        PositionBand::High
    } else {
        PositionBand::Mid
    }
}

/// The ends of an axis: those of the calibration, or else those that the camera reports, or
/// else the usual ones; ends that coincide are not used.
pub open spec fn axis_ends(
    range: Option<NumericRange>,
    calibration: Option<(i64, i64)>,
    fallback_min: int,
    fallback_max: int,
) -> (int, int) {
    let usual = (min_of(fallback_min, fallback_max), max_of(fallback_min, fallback_max));
    let known = match (calibration, range) {
        (Some((a, b)), _) => Some((min_of(a as int, b as int), max_of(a as int, b as int))),
        (None, Some(bounds)) => Some(
            (
                min_of(bounds.min as int, bounds.max as int),
                max_of(bounds.min as int, bounds.max as int),
            ),
        ),
        (None, None) => None,
    };
    match known {
        Some((low, high)) => if low < high {
            (low, high)
        } else {
            usual
        },
        None => usual,
    }
}

/// The ends of an axis as they are known.
pub fn axis_nominal_bounds(
    range: Option<NumericRange>,
    calibration: Option<(i64, i64)>,
    fallback_min: i64,
    fallback_max: i64,
) -> (r: (i128, i128))
    ensures
        (r.0 as int, r.1 as int) == axis_ends(
            range,
            calibration,
            fallback_min as int,
            fallback_max as int,
        ),
        -0x8000_0000_0000_0000 <= r.0 <= r.1 <= 0x7FFF_FFFF_FFFF_FFFF,
{
    let usual = (
        min_i128(fallback_min as i128, fallback_max as i128),
        max_i128(fallback_min as i128, fallback_max as i128),
    );
    let (first, second) = match (calibration, range) {
        (Some((a, b)), _) => (a, b),
        (None, Some(bounds)) => (bounds.min, bounds.max),
        (None, None) => {
            return usual;
        },
    };
    let low: i128 = min_i128(first as i128, second as i128);
    let high: i128 = max_i128(first as i128, second as i128);
    if low < high {
        (low, high)
    } else {
        usual
    }
}

/// The ends of an axis with a margin, moved out to where the camera stands if need be.
pub open spec fn axis_limits(
    range: Option<NumericRange>,
    calibration: Option<(i64, i64)>,
    current_count: int,
    fallback_min: int,
    fallback_max: int,
) -> (int, int) {
    let ends = axis_ends(range, calibration, fallback_min, fallback_max);
    (
        min_of(ends.0, current_count) - POSITION_MARGIN_COUNT,
        max_of(ends.1, current_count) + POSITION_MARGIN_COUNT,
    )
}

/// The ends of an axis with a margin.
pub fn axis_count_bounds(
    range: Option<NumericRange>,
    calibration: Option<(i64, i64)>,
    current_count: i64,
    fallback_min: i64,
    fallback_max: i64,
) -> (r: (i128, i128))
    ensures
        (r.0 as int, r.1 as int) == axis_limits(
            range,
            calibration,
            current_count as int,
            fallback_min as int,
            fallback_max as int,
        ),
        -0x1_0000_0000_0000_0000 <= r.0 < r.1 <= 0x1_0000_0000_0000_0000,
        r.0 < current_count < r.1,
{
    let (low, high) = axis_nominal_bounds(range, calibration, fallback_min, fallback_max);
    let current: i128 = current_count as i128;
    (
        min_i128(low, current) - POSITION_MARGIN_COUNT as i128,
        max_i128(high, current) + POSITION_MARGIN_COUNT as i128,
    )
}

/// A hundredth of the length of an axis, rounded down, and at least one count.
pub fn axis_one_percent_threshold(span: u64) -> (r: u64)
    ensures
        r == max_of(span as int / 100, 1),
{
    let part: u64 = span / 100;
    if part >= 1 {
        part
    } else {
        1
    }
}

/// A deadband of a calibration, kept between one count and the largest that is taken over.
pub open spec fn deadband_hint(deadband_count: i64) -> int {
    min_of(
        max_of(
            if deadband_count < 0 {
                -deadband_count
            } else {
                deadband_count as int
            },
            1,
        ),
        200,
    )
}

pub fn effective_deadband_hint(deadband_count: i64) -> (r: u64)
    ensures
        r == deadband_hint(deadband_count),
{
    let magnitude: i128 = if deadband_count < 0 {
        -(deadband_count as i128)
    } else {
        deadband_count as i128
    };
    if magnitude < 1 {
        1
    } else if magnitude > DEADBAND_HINT_MAX_COUNT as i128 {
        DEADBAND_HINT_MAX_COUNT
    } else {
        magnitude as u64
    }
}

/// The smallest movements of a camera, in each direction and on each axis.
#[derive(Debug, Clone, Copy, PartialEq, Eq, Structural)]
pub struct AxisDeadbandHints {
    pub pan_count: u64,
    pub tilt_count: u64,
    pub pan_positive_count: u64,
    pub pan_negative_count: u64,
    pub tilt_positive_count: u64,
    pub tilt_negative_count: u64,
}

/// The deadband in a direction: its own, or the one of the axis.
pub open spec fn direction_hint(own: Option<i64>, of_axis: i64) -> int {
    deadband_hint(
        match own {
            Some(count) => count,
            None => of_axis,
        },
    )
}

/// What a calibration says of the smallest movements. Without one they are none.
pub open spec fn hints_of(calibration: Option<CalibrationParamsModel>) -> AxisDeadbandHints {
    match calibration {
        Some(known) => {
            let pan_positive = direction_hint(
                known.pan_deadband_increase_count,
                known.pan_deadband_count,
            );
            let pan_negative = direction_hint(
                known.pan_deadband_decrease_count,
                known.pan_deadband_count,
            );
            let tilt_positive = direction_hint(
                known.tilt_deadband_increase_count,
                known.tilt_deadband_count,
            );
            let tilt_negative = direction_hint(
                known.tilt_deadband_decrease_count,
                known.tilt_deadband_count,
            );
            AxisDeadbandHints {
                pan_count: max_of(pan_positive, pan_negative) as u64,
                tilt_count: max_of(tilt_positive, tilt_negative) as u64,
                pan_positive_count: pan_positive as u64,
                pan_negative_count: pan_negative as u64,
                tilt_positive_count: tilt_positive as u64,
                tilt_negative_count: tilt_negative as u64,
            }
        },
        None => AxisDeadbandHints {
            pan_count: 0,
            tilt_count: 0,
            pan_positive_count: 0,
            pan_negative_count: 0,
            tilt_positive_count: 0,
            tilt_negative_count: 0,
        },
    }
}

fn effective_direction_hint(own: Option<i64>, of_axis: i64) -> (r: u64)
    ensures
        r == direction_hint(own, of_axis),
{
    match own {
        Some(count) => effective_deadband_hint(count),
        None => effective_deadband_hint(of_axis),
    }
}

fn larger_of(a: u64, b: u64) -> (r: u64)
    ensures
        r == max_of(a as int, b as int),
{
    if a >= b {
        a
    } else {
        b
    }
}

/// The smallest movements of a camera, from its calibration.
pub fn load_axis_deadband_hints(stored: Option<&StoredCalibration>) -> (r: AxisDeadbandHints)
    ensures
        r == hints_of(
            match stored {
                Some(known) => Some(known@.calibration),
                None => None,
            },
        ),
{
    let known = match stored {
        Some(stored) => &stored.calibration,
        None => {
            return AxisDeadbandHints {
                pan_count: 0,
                tilt_count: 0,
                pan_positive_count: 0,
                pan_negative_count: 0,
                tilt_positive_count: 0,
                tilt_negative_count: 0,
            };
        },
    };
    let pan_positive_count: u64 = effective_direction_hint(
        known.pan_deadband_increase_count,
        known.pan_deadband_count,
    );
    let pan_negative_count: u64 = effective_direction_hint(
        known.pan_deadband_decrease_count,
        known.pan_deadband_count,
    );
    let tilt_positive_count: u64 = effective_direction_hint(
        known.tilt_deadband_increase_count,
        known.tilt_deadband_count,
    );
    let tilt_negative_count: u64 = effective_direction_hint(
        known.tilt_deadband_decrease_count,
        known.tilt_deadband_count,
    );
    AxisDeadbandHints {
        pan_count: larger_of(pan_positive_count, pan_negative_count),
        tilt_count: larger_of(tilt_positive_count, tilt_negative_count),
        pan_positive_count,
        pan_negative_count,
        tilt_positive_count,
        tilt_negative_count,
    }
}

/// The smallest movement where an axis is, in hundredths of a count: near the ends of the
/// axis it is larger.
pub open spec fn scaled_deadband(base: int, position: int, min_count: int, max_count: int) -> int {
    if base <= 0 {
        0
    } else if band_of(position, min_count, max_count) == PositionBand::Mid {
        base * 100
    } else {
        base * 118
    }
}

pub fn scale_directional_deadband(
    base_deadband: i64,
    position: i64,
    min_count: i128,
    max_count: i128,
) -> (r: u128)
    requires
        -0x1_0000_0000_0000_0000 <= min_count <= 0x1_0000_0000_0000_0000,
        -0x1_0000_0000_0000_0000 <= max_count <= 0x1_0000_0000_0000_0000,
    ensures
        r == scaled_deadband(
            base_deadband as int,
            position as int,
            min_count as int,
            max_count as int,
        ),
{
    if base_deadband <= 0 {
        return 0;
    }
    match classify_position_band(position, min_count, max_count) {
        PositionBand::Mid => base_deadband as u128 * 100,
        _ => base_deadband as u128 * 118,
    }
}

// ---------------------------------------------------------------- laws

/// The ends of an axis may be given in either order.
pub proof fn law_band_ignores_the_order_of_the_ends(position: int, a: int, b: int)
    ensures
        band_of(position, a, b) == band_of(position, b, a),
{
}

/// A position at or beyond an end lies in the edge at that end.
pub proof fn law_ends_are_edges(position: int, low: int, high: int)
    requires
        low < high,
    ensures
        position <= low ==> band_of(position, low, high) == PositionBand::Low,
        position >= high ==> band_of(position, low, high) == PositionBand::High,
{
}

/// The limits of an axis hold the place where the camera stands, and the known ends.
pub proof fn law_limits_hold_the_position(
    range: Option<NumericRange>,
    calibration: Option<(i64, i64)>,
    current_count: int,
    fallback_min: int,
    fallback_max: int,
)
    ensures
        ({
            let ends = axis_ends(range, calibration, fallback_min, fallback_max);
            let limits = axis_limits(
                range,
                calibration,
                current_count,
                fallback_min,
                fallback_max,
            );
            limits.0 < current_count < limits.1 && limits.0 < ends.0 && ends.1 < limits.1
        }),
{
}

} // verus!
