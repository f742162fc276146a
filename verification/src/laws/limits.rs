//! Limits of a movement: how fast, how long, how near, and how close to the ends of an axis.
use crate::model::{CalibrationParamsModel, NumericRange, PtzDirection};
use crate::usecases::failure_modes::{dominant_label, FailureModeCounters};
use crate::usecases::ptz_control_limits::{
    control_pulse, control_step, detect_range, phase_of, risky_in, saturates, speed_cap,
    stable_hundredths, success_tenths, swing_of, within_damping, EdgePushContext,
};
use crate::usecases::ptz_control_loop::Swing;
use crate::usecases::ptz_deadband::{
    axis_ends, axis_limits, band_of, deadband_hint, hints_of, scaled_deadband, PositionBand,
};
use crate::usecases::ptz_settle_gate::{
    capable_gate_open, gate_open, settled, CompletionGateCapabilities,
};
use vstd::prelude::*;

verus! {

// ---------------------------------------------------------------- speed and time

/// How fast the camera may be pushed at most, by its error.
pub proof fn law_speed_by_error(error_count: u64)
    ensures
        speed_cap(error_count) == 1 <==> error_count <= 180,
        speed_cap(error_count) == 2 <==> 180 < error_count <= 320,
        speed_cap(error_count) == 3 <==> 320 < error_count <= 900,
        speed_cap(error_count) == 4 <==> 900 < error_count <= 1500,
        speed_cap(error_count) == 6 <==> 1500 < error_count <= 2500,
        speed_cap(error_count) == 8 <==> error_count > 2500,
{
}

/// How long the camera is pushed, by its error: not at all within ninety counts, and longer
/// the further it is off.
pub proof fn law_time_by_error(error_count: u64)
    ensures
        control_pulse(error_count) == 0 <==> error_count <= 90,
        control_pulse(error_count) == 20 <==> 90 < error_count <= 180,
        control_pulse(error_count) == 35 <==> 180 < error_count <= 320,
        control_pulse(error_count) == 55 <==> 320 < error_count <= 520,
        control_pulse(error_count) == 90 <==> 520 < error_count <= 900,
        control_pulse(error_count) == 110 <==> 900 < error_count <= 1500,
        control_pulse(error_count) == 140 <==> error_count > 1500,
        control_step(error_count) == 140 <==> error_count <= 90,
        control_step(error_count) == 130 <==> 90 < error_count <= 180 || error_count > 900,
        control_step(error_count) == 120 <==> 180 < error_count <= 320,
        control_step(error_count) == 110 <==> 320 < error_count <= 900,
{
}

pub open spec fn is_within(error: int, count: int) -> bool {
    -count <= error <= count
}

/// Near the target, on both axes, the camera is moved by distances where it can be, and not
/// just after it moved otherwise than expected; where it cannot be, it is pushed at the
/// lowest speed, and for a time that was learned.
pub proof fn law_phase_by_error(
    supports_relative_move: bool,
    pan_error: int,
    tilt_error: int,
    mismatch_cooldown_steps: u64,
)
    ensures
        ({
            let phase = phase_of(
                supports_relative_move,
                pan_error,
                tilt_error,
                mismatch_cooldown_steps,
            );
            &&& phase.fine <==> supports_relative_move && mismatch_cooldown_steps == 0 && is_within(
                pan_error,
                240,
            ) && is_within(tilt_error, 240)
            &&& phase.learned_pulses <==> !supports_relative_move && is_within(pan_error, 360)
                && is_within(tilt_error, 360)
            &&& phase.near_target <==> !supports_relative_move && is_within(pan_error, 420)
                && is_within(tilt_error, 420)
        }),
{
}

// ---------------------------------------------------------------- tolerances

/// The tolerance, in tenths of a count, is that of the axis, and where its smallest movement
/// with three tenths of what was asked for is larger, that, up to sixty counts.
pub proof fn law_tolerance_of_an_axis(base_count: u64, deadband_count: u64, tolerance_count: i64)
    ensures
        deadband_count == 0 && base_count >= 1 ==> success_tenths(
            base_count,
            deadband_count,
            tolerance_count,
        ) == 10 * base_count,
        base_count >= 60 ==> success_tenths(base_count, deadband_count, tolerance_count) == 10
            * base_count,
        base_count == 0 ==> success_tenths(base_count, deadband_count, tolerance_count)
            == success_tenths(1, deadband_count, tolerance_count),
        deadband_count > 0 && tolerance_count >= 0 && 10 * deadband_count + 3 * tolerance_count
            <= 600 ==> success_tenths(base_count, deadband_count, tolerance_count) >= 10
            * deadband_count + 3 * tolerance_count,
        deadband_count > 0 && tolerance_count >= 0 && 10 * deadband_count + 3 * tolerance_count > 600
            ==> success_tenths(base_count, deadband_count, tolerance_count) >= 600,
        success_tenths(base_count, deadband_count, tolerance_count) <= 600 || success_tenths(
            base_count,
            deadband_count,
            tolerance_count,
        ) == 10 * base_count,
{
}

/// Swings are looked for within four times the tolerance, and within a hundred and twenty
/// counts at least.
pub proof fn law_swings_are_looked_for_nearby(success_tenths: int, tolerance_count: int)
    ensures
        detect_range(success_tenths, tolerance_count) >= 1200,
        success_tenths >= 300 ==> detect_range(success_tenths, tolerance_count) == 4
            * success_tenths,
        0 < success_tenths <= 300 ==> detect_range(success_tenths, tolerance_count) == 1200,
        success_tenths <= 0 && tolerance_count >= 30 ==> detect_range(
            success_tenths,
            tolerance_count,
        ) == 40 * tolerance_count,
{
}

/// An error swings where it changes its sign from one reading to the next, with both errors
/// beyond the tolerance and nearby. A change of sign counts the same both ways.
pub proof fn law_swings_change_the_sign(
    before: i128,
    now: int,
    tolerance_count: int,
    success_tenths: int,
)
    requires
        tolerance_count >= 0,
    ensures
        swing_of(None, now, tolerance_count, success_tenths) != Swing::Reversed,
        (before >= 0 && now >= 0) || (before <= 0 && now <= 0) ==> swing_of(
            Some(before),
            now,
            tolerance_count,
            success_tenths,
        ) != Swing::Reversed,
        is_within(now, tolerance_count) || is_within(before as int, tolerance_count) ==> swing_of(
            Some(before),
            now,
            tolerance_count,
            success_tenths,
        ) != Swing::Reversed,
        !is_within(now, tolerance_count) && !is_within(before as int, tolerance_count) && is_within(
            now,
            120,
        ) && is_within(before as int, 120) && ((before > 0 && now < 0) || (before < 0 && now > 0))
            ==> swing_of(Some(before), now, tolerance_count, success_tenths) == Swing::Reversed,
        is_within(now, 120) && swing_of(Some(before), now, tolerance_count, success_tenths)
            != Swing::Reversed ==> swing_of(Some(before), now, tolerance_count, success_tenths)
            == Swing::Calm,
        10 * now > detect_range(success_tenths, tolerance_count) || 10 * now < -detect_range(
            success_tenths,
            tolerance_count,
        ) ==> swing_of(Some(before), now, tolerance_count, success_tenths) == Swing::Far,
{
}

/// Swinging is damped where both errors are within three times their own tolerances.
pub proof fn law_damping_is_near_on_both_axes(
    pan_error: int,
    tilt_error: int,
    pan_tenths: int,
    tilt_tenths: int,
)
    ensures
        within_damping(pan_error, tilt_error, pan_tenths, tilt_tenths) <==> pan_tenths > 0
            && tilt_tenths > 0 && is_within(10 * pan_error, 3 * pan_tenths) && is_within(
            10 * tilt_error,
            3 * tilt_tenths,
        ),
{
}

/// The position stands still where it moves by less than a part of what was asked for or of
/// the larger of the smallest movements: between two and twenty-four counts.
pub proof fn law_standing_still(
    tolerance_count: int,
    pan_deadband_count: int,
    tilt_deadband_count: int,
)
    ensures
        200 <= stable_hundredths(tolerance_count, pan_deadband_count, tilt_deadband_count) <= 2400,
        stable_hundredths(tolerance_count, pan_deadband_count, tilt_deadband_count)
            == stable_hundredths(tolerance_count, tilt_deadband_count, pan_deadband_count),
        6 <= tolerance_count <= 68 && pan_deadband_count <= tolerance_count && tilt_deadband_count
            <= tolerance_count ==> stable_hundredths(
            tolerance_count,
            pan_deadband_count,
            tilt_deadband_count,
        ) == 35 * tolerance_count,
        tolerance_count <= 0 && 17 <= pan_deadband_count <= 200 && tilt_deadband_count
            <= pan_deadband_count ==> stable_hundredths(
            tolerance_count,
            pan_deadband_count,
            tilt_deadband_count,
        ) == 12 * pan_deadband_count,
{
}

// ---------------------------------------------------------------- the ends of the axes

/// A push is risky only at the end to which it goes: to the right and upwards near the
/// largest count, to the left and downwards near the smallest, and only where the error still
/// points that way.
pub proof fn law_risk_is_at_the_end_ahead(context: EdgePushContext)
    requires
        context.fits(),
    ensures
        saturates(context, PtzDirection::Right) ==> context.pan_error_measured > 0
            && context.pan_max_count - context.pan_measure <= 320,
        saturates(context, PtzDirection::Left) ==> context.pan_error_measured < 0
            && context.pan_measure - context.pan_min_count <= 320,
        saturates(context, PtzDirection::Up) ==> context.tilt_error_measured > 0
            && context.tilt_max_count - context.tilt_measure <= 120,
        saturates(context, PtzDirection::Down) ==> context.tilt_error_measured < 0
            && context.tilt_measure - context.tilt_min_count <= 120,
        context.pan_max_count - context.pan_measure <= 40 && 10 * context.pan_error_measured
            > context.pan_success_tenths ==> risky_in(context).right,
        context.pan_measure - context.pan_min_count <= 40 && 10 * context.pan_error_measured < -(
        context.pan_success_tenths as int) ==> risky_in(context).left,
        context.tilt_max_count - context.tilt_measure <= 120 && 10 * context.tilt_error_measured
            > context.tilt_success_tenths ==> risky_in(context).up,
        context.tilt_measure - context.tilt_min_count <= 120 && 10 * context.tilt_error_measured
            < -(context.tilt_success_tenths as int) ==> risky_in(context).down,
        risky_in(context).left == saturates(context, PtzDirection::Left),
        risky_in(context).right == saturates(context, PtzDirection::Right),
        risky_in(context).up == saturates(context, PtzDirection::Up),
        risky_in(context).down == saturates(context, PtzDirection::Down),
        !saturates(context, PtzDirection::LeftUp),
{
}

/// What is said of one axis does not depend on the other.
pub proof fn law_risks_are_of_their_axis(context: EdgePushContext, other: EdgePushContext)
    ensures
        context.pan_measure == other.pan_measure && context.pan_min_count == other.pan_min_count
            && context.pan_max_count == other.pan_max_count && context.pan_error_measured
            == other.pan_error_measured && context.pan_success_tenths == other.pan_success_tenths
            ==> risky_in(context).left == risky_in(other).left && risky_in(context).right
            == risky_in(other).right,
        context.tilt_measure == other.tilt_measure && context.tilt_min_count
            == other.tilt_min_count && context.tilt_max_count == other.tilt_max_count
            && context.tilt_error_measured == other.tilt_error_measured
            && context.tilt_success_tenths == other.tilt_success_tenths ==> risky_in(context).up
            == risky_in(other).up && risky_in(context).down == risky_in(other).down,
{
}

// ---------------------------------------------------------------- bands and ends

/// A position is in the lower band within a fifth of the axis from its lower end, and in the
/// upper band within a fifth from its upper end.
pub proof fn law_bands_are_fifths(position: int, low: int, high: int)
    requires
        low < high,
    ensures
        band_of(position, low, high) == PositionBand::Low <==> 5 * (position - low) <= high - low,
        band_of(position, low, high) == PositionBand::High <==> 5 * (position - low) > high - low
            && 5 * (high - position) <= high - low,
        band_of(position, low, high) == PositionBand::Mid <==> 5 * (position - low) > high - low
            && 5 * (high - position) > high - low,
        band_of(position, low, low) == PositionBand::Mid,
{
}

/// The smallest movement counts for more near the ends of an axis.
pub proof fn law_deadband_grows_at_the_ends(base: int, position: int, low: int, high: int)
    requires
        low < high,
        base > 0,
    ensures
        5 * (position - low) <= high - low || 5 * (high - position) <= high - low
            ==> scaled_deadband(base, position, low, high) == 118 * base,
        5 * (position - low) > high - low && 5 * (high - position) > high - low ==> scaled_deadband(
            base,
            position,
            low,
            high,
        ) == 100 * base,
        scaled_deadband(0, position, low, high) == 0,
{
}

/// The ends of an axis are those that were measured, else those that the camera reports, else
/// the usual ones, the smaller first; ends that are no range are passed over.
pub proof fn law_ends_by_source(
    range: NumericRange,
    a: i64,
    b: i64,
    fallback_min: int,
    fallback_max: int,
)
    ensures
        a < b ==> axis_ends(Some(range), Some((a, b)), fallback_min, fallback_max) == (
            a as int,
            b as int,
        ) && axis_ends(None, Some((b, a)), fallback_min, fallback_max) == (a as int, b as int),
        range.min < range.max ==> axis_ends(Some(range), None, fallback_min, fallback_max) == (
            range.min as int,
            range.max as int,
        ),
        range.min > range.max ==> axis_ends(Some(range), None, fallback_min, fallback_max) == (
            range.max as int,
            range.min as int,
        ),
        fallback_min <= fallback_max ==> axis_ends(None, None, fallback_min, fallback_max) == (
            fallback_min,
            fallback_max,
        ) && axis_ends(Some(range), Some((a, a)), fallback_min, fallback_max) == (
            fallback_min,
            fallback_max,
        ),
{
}

/// The limits are the ends, or the position where it is beyond them, and a hundred and twenty
/// counts more.
pub proof fn law_limits_are_wider(
    range: Option<NumericRange>,
    calibration: Option<(i64, i64)>,
    current_count: int,
    fallback_min: int,
    fallback_max: int,
)
    ensures
        ({
            let ends = axis_ends(range, calibration, fallback_min, fallback_max);
            let limits = axis_limits(range, calibration, current_count, fallback_min, fallback_max);
            &&& ends.0 <= current_count <= ends.1 ==> limits == (ends.0 - 120, ends.1 + 120)
            &&& current_count < ends.0 ==> limits.0 == current_count - 120
            &&& current_count > ends.1 ==> limits.1 == current_count + 120
        }),
{
}

// ---------------------------------------------------------------- the smallest movements

/// A smallest movement counts by its size, between one and two hundred.
pub proof fn law_deadband_counts_by_size(deadband_count: i64)
    ensures
        1 <= deadband_hint(deadband_count) <= 200,
        1 <= deadband_count <= 200 ==> deadband_hint(deadband_count) == deadband_count,
        -200 <= deadband_count <= -1 ==> deadband_hint(deadband_count) == -deadband_count,
        deadband_count > 200 ==> deadband_hint(deadband_count) == 200,
        deadband_hint(0) == 1,
{
}

/// The smallest movement of an axis in a direction is what was measured of it, or that of
/// the axis where it was not; that of the axis is the larger of the two.
pub proof fn law_deadbands_are_of_their_axis_and_direction(known: CalibrationParamsModel)
    requires
        1 <= known.pan_deadband_count <= 200,
        1 <= known.tilt_deadband_count <= 200,
    ensures
        ({
            let hints = hints_of(Some(known));
            &&& known.pan_deadband_increase_count matches Some(n) ==> (1 <= n <= 200
                ==> hints.pan_positive_count == n)
            &&& known.pan_deadband_decrease_count matches Some(n) ==> (1 <= n <= 200
                ==> hints.pan_negative_count == n)
            &&& known.tilt_deadband_increase_count matches Some(n) ==> (1 <= n <= 200
                ==> hints.tilt_positive_count == n)
            &&& known.tilt_deadband_decrease_count matches Some(n) ==> (1 <= n <= 200
                ==> hints.tilt_negative_count == n)
            &&& known.pan_deadband_increase_count is None ==> hints.pan_positive_count
                == known.pan_deadband_count
            &&& known.pan_deadband_decrease_count is None ==> hints.pan_negative_count
                == known.pan_deadband_count
            &&& known.tilt_deadband_increase_count is None ==> hints.tilt_positive_count
                == known.tilt_deadband_count
            &&& known.tilt_deadband_decrease_count is None ==> hints.tilt_negative_count
                == known.tilt_deadband_count
            &&& hints.pan_count >= hints.pan_positive_count && hints.pan_count
                >= hints.pan_negative_count && (hints.pan_count == hints.pan_positive_count
                || hints.pan_count == hints.pan_negative_count)
            &&& hints.tilt_count >= hints.tilt_positive_count && hints.tilt_count
                >= hints.tilt_negative_count && (hints.tilt_count == hints.tilt_positive_count
                || hints.tilt_count == hints.tilt_negative_count)
        }),
        hints_of(None).pan_count == 0 && hints_of(None).tilt_count == 0,
{
}

// ---------------------------------------------------------------- standing still

/// A position settles while neither axis moves by more than the threshold, and starts over as
/// soon as one does, or it is not known how far it moved.
pub proof fn law_position_settles(steps: nat, pan: i128, tilt: i128, threshold: int)
    requires
        threshold >= 0,
        steps < usize::MAX,
    ensures
        is_within(pan as int, threshold) && is_within(tilt as int, threshold) ==> settled(
            steps,
            Some(pan),
            Some(tilt),
            threshold,
        ) == steps + 1,
        !is_within(pan as int, threshold) || !is_within(tilt as int, threshold) ==> settled(
            steps,
            Some(pan),
            Some(tilt),
            threshold,
        ) == 0,
        settled(steps, None, Some(tilt), threshold) == 0,
        settled(steps, Some(pan), None, threshold) == 0,
{
}

/// Completion waits while the camera says that it moves, while the movement is too young,
/// and while the position has not settled; else it waits no longer.
pub proof fn law_gate_waits(
    moving: Option<bool>,
    move_age_ms: Option<u64>,
    min_age_ms: u64,
    stable_steps: nat,
    required: nat,
)
    ensures
        moving == Some(true) ==> !gate_open(moving, move_age_ms, min_age_ms, stable_steps, required),
        (move_age_ms matches Some(age) && age < min_age_ms) ==> !gate_open(
            moving,
            move_age_ms,
            min_age_ms,
            stable_steps,
            required,
        ),
        stable_steps < required || stable_steps == 0 ==> !gate_open(
            moving,
            move_age_ms,
            min_age_ms,
            stable_steps,
            required,
        ),
        moving is None && move_age_ms is None ==> !gate_open(
            moving,
            move_age_ms,
            min_age_ms,
            stable_steps,
            required,
        ),
        stable_steps >= 1 && stable_steps >= required && moving == Some(false) && (move_age_ms
            matches Some(age) ==> age >= min_age_ms) ==> gate_open(
            moving,
            move_age_ms,
            min_age_ms,
            stable_steps,
            required,
        ),
{
}

/// The same where the camera does not tell everything: then the position has to stand still
/// for longer.
pub proof fn law_gate_waits_longer_without_word(
    moving: Option<bool>,
    move_age_ms: Option<u64>,
    min_age_ms: u64,
    stable_steps: nat,
    required: nat,
    fallback: nat,
)
    requires
        stable_steps >= 1,
        moving != Some(true),
        move_age_ms matches Some(age) ==> age >= min_age_ms,
    ensures
        capable_gate_open(
            moving,
            move_age_ms,
            CompletionGateCapabilities { reports_moving: true, reports_age: true },
            min_age_ms,
            stable_steps,
            required,
            fallback,
        ) <==> stable_steps >= required,
        capable_gate_open(
            moving,
            move_age_ms,
            CompletionGateCapabilities { reports_moving: false, reports_age: true },
            min_age_ms,
            stable_steps,
            required,
            fallback,
        ) <==> stable_steps >= fallback,
        capable_gate_open(
            moving,
            move_age_ms,
            CompletionGateCapabilities { reports_moving: true, reports_age: false },
            min_age_ms,
            stable_steps,
            required,
            fallback,
        ) <==> stable_steps >= fallback,
        !capable_gate_open(
            Some(true),
            move_age_ms,
            CompletionGateCapabilities { reports_moving: true, reports_age: true },
            min_age_ms,
            stable_steps,
            required,
            fallback,
        ),
        min_age_ms > 0 ==> !capable_gate_open(
            moving,
            Some(0),
            CompletionGateCapabilities { reports_moving: true, reports_age: true },
            min_age_ms,
            stable_steps,
            required,
            fallback,
        ),
{
}

// ---------------------------------------------------------------- what went wrong

/// The label names the one counter that is above all others.
pub proof fn law_label_names_the_leader(counters: FailureModeCounters)
    ensures
        ({
            let edge = counters.edge_saturation_hits;
            let model = counters.model_mismatch_hits;
            let swap = counters.axis_swap_lag_hits;
            let stale = counters.stale_status_hits;
            &&& edge > model && edge > swap && edge > stale ==> dominant_label(counters) == "edge"@
            &&& model > edge && model > swap && model > stale ==> dominant_label(counters)
                == "model"@
            &&& swap > edge && swap > model && swap > stale ==> dominant_label(counters)
                == "axis_swap"@
            &&& stale > edge && stale > model && stale > swap ==> dominant_label(counters)
                == "stale"@
            &&& edge == 0 && model == 0 && swap == 0 && stale == 0 ==> dominant_label(counters)
                == "none"@
            &&& edge > 0 && edge == model && edge >= swap && edge >= stale ==> dominant_label(
                counters,
            ) == "tie"@
        }),
{
}

/// The larger of two counters is taken for each kind, and it is one of the two.
pub proof fn law_larger_counters_are_taken(a: FailureModeCounters, b: FailureModeCounters)
    ensures
        ({
            let most = crate::usecases::failure_modes::counters_max(a, b);
            &&& most.edge_saturation_hits == a.edge_saturation_hits || most.edge_saturation_hits
                == b.edge_saturation_hits
            &&& most.edge_saturation_hits >= a.edge_saturation_hits && most.edge_saturation_hits
                >= b.edge_saturation_hits
            &&& most.model_mismatch_hits == a.model_mismatch_hits || most.model_mismatch_hits
                == b.model_mismatch_hits
            &&& most.model_mismatch_hits >= a.model_mismatch_hits && most.model_mismatch_hits
                >= b.model_mismatch_hits
            &&& most.axis_swap_lag_hits == a.axis_swap_lag_hits || most.axis_swap_lag_hits
                == b.axis_swap_lag_hits
            &&& most.axis_swap_lag_hits >= a.axis_swap_lag_hits && most.axis_swap_lag_hits
                >= b.axis_swap_lag_hits
            &&& most.stale_status_hits == a.stale_status_hits || most.stale_status_hits
                == b.stale_status_hits
            &&& most.stale_status_hits >= a.stale_status_hits && most.stale_status_hits
                >= b.stale_status_hits
        }),
{
}

/// The counters are written by their names.
pub proof fn law_counters_are_written(counters: FailureModeCounters)
    ensures
        crate::usecases::failure_modes::counters_text(counters) == "(edge:"@ + crate::text::dec(
            counters.edge_saturation_hits as nat,
        ) + ",model:"@ + crate::text::dec(counters.model_mismatch_hits as nat) + ",axis_swap:"@
            + crate::text::dec(counters.axis_swap_lag_hits as nat) + ",stale:"@ + crate::text::dec(
            counters.stale_status_hits as nat,
        ) + ")"@,
{
}

/// Where no single counter is above all others, and there are any, there is a tie.
pub proof fn law_ties_are_told(counters: FailureModeCounters)
    ensures
        ({
            let edge = counters.edge_saturation_hits;
            let model = counters.model_mismatch_hits;
            let swap = counters.axis_swap_lag_hits;
            let stale = counters.stale_status_hits;
            let led = (edge > model && edge > swap && edge > stale) || (model > edge && model > swap
                && model > stale) || (swap > edge && swap > model && swap > stale) || (stale > edge
                && stale > model && stale > swap);
            edge + model + swap + stale > 0 && !led ==> dominant_label(counters) == "tie"@
        }),
{
}

} // verus!
