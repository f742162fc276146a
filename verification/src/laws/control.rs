//! Moving to a target: which way the camera is pushed, and when it has arrived.
use crate::model::PtzDirection;
use crate::usecases::ptz_control_loop::{
    axis_of, blocks, free_lockout, guarded_push, interleave_after, is_risky, is_secondary_turn,
    lockout_after, may_learn, no_interleave, observed_at, pending_pulse, required_steps,
    reversals_after, shaped_pulse, slot_of, AxisDirection, BestObservedState, ControlAxis,
    DualAxisInterleaveState, EdgePushLockoutState, InterleaveReading, PulseContext, RiskyPushes,
    Swing,
};
use crate::usecases::ptz_get_absolute_raw::PtzRawPosition;
use crate::usecases::ptz_loop_state::{
    focused_push, is_off_axis, narrowed, observed, push_of, selected, stable_steps_after,
    verdict_of, LoopEvidence, LoopReading, LoopState, LoopVerdict, PushReading, StrictTolerances,
};
use vstd::prelude::*;

verus! {

// ---------------------------------------------------------------- directions

/// A push to the right raises the pan count and one to the left lowers it; a push upwards
/// raises the tilt count and one downwards lowers it. A push along both axes counts for
/// neither.
pub proof fn law_directions_and_axes(direction: PtzDirection)
    ensures
        axis_of(direction) == Some((ControlAxis::Pan, AxisDirection::Positive)) <==> direction
            == PtzDirection::Right,
        axis_of(direction) == Some((ControlAxis::Pan, AxisDirection::Negative)) <==> direction
            == PtzDirection::Left,
        axis_of(direction) == Some((ControlAxis::Tilt, AxisDirection::Positive)) <==> direction
            == PtzDirection::Up,
        axis_of(direction) == Some((ControlAxis::Tilt, AxisDirection::Negative)) <==> direction
            == PtzDirection::Down,
{
}

pub open spec fn is_off(error: int, tolerance: u64) -> bool {
    error > tolerance || error < -tolerance
}

/// Where one axis is within its strict tolerance and the other is not, the push on the other
/// points the way its error does, however large the error is: to the right exactly where the
/// pan error is positive and to the left where it is negative, upwards where the tilt error
/// is positive and downwards where it is negative. Where both are off, or neither, there is
/// no such push.
pub proof fn law_focused_push_points_the_way_of_the_error(
    pan_error: int,
    tilt_error: int,
    strict: StrictTolerances,
)
    ensures
        is_off(pan_error, strict.pan_count) && !is_off(tilt_error, strict.tilt_count) ==> {
            &&& focused_push(pan_error, tilt_error, strict) == Some(PtzDirection::Right)
                <==> pan_error > 0
            &&& focused_push(pan_error, tilt_error, strict) == Some(PtzDirection::Left)
                <==> pan_error < 0
        },
        is_off(tilt_error, strict.tilt_count) && !is_off(pan_error, strict.pan_count) ==> {
            &&& focused_push(pan_error, tilt_error, strict) == Some(PtzDirection::Up)
                <==> tilt_error > 0
            &&& focused_push(pan_error, tilt_error, strict) == Some(PtzDirection::Down)
                <==> tilt_error < 0
        },
        is_off(tilt_error, strict.tilt_count) == is_off(pan_error, strict.pan_count)
            <==> focused_push(pan_error, tilt_error, strict) is None,
{
}

/// With the errors as distances from a count to its target: the way of the push is positive
/// if and only if the target is above the count, and the push is along the axis that is off.
pub proof fn law_focused_push_goes_to_the_target(
    pan: (int, int),
    tilt: (int, int),
    strict: StrictTolerances,
)
    ensures
        focused_push(pan.1 - pan.0, tilt.1 - tilt.0, strict) matches Some(push) ==> (axis_of(
            push,
        ) matches Some((axis, way)) && match axis {
            ControlAxis::Pan => is_off(pan.1 - pan.0, strict.pan_count) && (way
                == AxisDirection::Positive <==> pan.1 > pan.0),
            ControlAxis::Tilt => is_off(tilt.1 - tilt.0, strict.tilt_count) && (way
                == AxisDirection::Positive <==> tilt.1 > tilt.0),
        }),
{
}

/// Pushes the other way for the mirrored errors.
pub proof fn law_focused_push_mirrors(pan_error: int, tilt_error: int, strict: StrictTolerances)
    ensures
        focused_push(pan_error, tilt_error, strict) matches Some(push) ==> (focused_push(
            -pan_error,
            -tilt_error,
            strict,
        ) matches Some(other) && axis_of(push) matches Some((axis, way)) && axis_of(other) matches Some(
            (other_axis, other_way),
        ) && axis == other_axis && way != other_way),
{
}

/// The push that is made is the one on the axis that is off, whatever else was wanted, unless
/// it is risky.
pub proof fn law_push_is_the_focused_one(state: LoopState, reading: PushReading)
    requires
        is_off(reading.pan_error as int, reading.strict.pan_count) != is_off(
            reading.tilt_error as int,
            reading.strict.tilt_count,
        ),
    ensures
        is_off(reading.pan_error as int, reading.strict.pan_count) && reading.pan_error > 0
            && !reading.risky.right ==> push_of(state, reading).1 == Some(PtzDirection::Right),
        is_off(reading.pan_error as int, reading.strict.pan_count) && reading.pan_error < 0
            && !reading.risky.left ==> push_of(state, reading).1 == Some(PtzDirection::Left),
        is_off(reading.tilt_error as int, reading.strict.tilt_count) && reading.tilt_error > 0
            && !reading.risky.up ==> push_of(state, reading).1 == Some(PtzDirection::Up),
        is_off(reading.tilt_error as int, reading.strict.tilt_count) && reading.tilt_error < 0
            && !reading.risky.down ==> push_of(state, reading).1 == Some(PtzDirection::Down),
        selected(state, reading).interleave == no_interleave(),
{
}

/// Where both axes are off, the push is the one on the axis whose turn it is, and else the
/// one that the errors call for.
pub proof fn law_push_follows_the_turn(state: LoopState, reading: PushReading)
    requires
        is_off(reading.pan_error as int, reading.strict.pan_count) == is_off(
            reading.tilt_error as int,
            reading.strict.tilt_count,
        ),
        !reading.risky.left && !reading.risky.right && !reading.risky.up && !reading.risky.down,
    ensures
        reading.interleave is None ==> push_of(state, reading).1 == reading.direct,
        (reading.interleave matches Some(known) && known.secondary_push is None) ==> push_of(
            state,
            reading,
        ).1 == reading.direct,
        (reading.interleave matches Some(known) && known.secondary_within) ==> push_of(
            state,
            reading,
        ).1 == reading.direct,
        (reading.interleave matches Some(known) && known.secondary_push is Some
            && !known.secondary_within && known.interval == 0) ==> push_of(state, reading).1
            == reading.interleave->0.secondary_push,
        !push_of(state, reading).2,
{
}

// ---------------------------------------------------------------- turns

/// While one axis is far ahead in error, the other gets its turn after as many pushes as the
/// interval says, and no sooner.
pub proof fn law_turns_come_after_the_interval(
    state: DualAxisInterleaveState,
    known: InterleaveReading,
)
    requires
        !known.secondary_within,
        state.dominant_axis == Some(known.dominant),
    ensures
        is_secondary_turn(state, Some(known)) <==> state.dominant_streak >= known.interval,
        state.dominant_streak < known.interval ==> interleave_after(state, Some(known))
            == (DualAxisInterleaveState {
            dominant_axis: Some(known.dominant),
            dominant_streak: (state.dominant_streak + 1) as u64,
        }),
        state.dominant_streak >= known.interval ==> interleave_after(
            state,
            Some(known),
        ).dominant_streak == 0,
{
}

/// Where the other axis takes the lead, or there is nothing to take turns in, the count of
/// pushes starts anew.
pub proof fn law_turns_start_anew(state: DualAxisInterleaveState, known: InterleaveReading)
    ensures
        interleave_after(state, None) == (DualAxisInterleaveState {
            dominant_axis: None,
            dominant_streak: 0,
        }),
        !is_secondary_turn(state, None),
        state.dominant_axis != Some(known.dominant) && !known.secondary_within && known.interval > 0
            ==> interleave_after(state, Some(known)) == (DualAxisInterleaveState {
            dominant_axis: Some(known.dominant),
            dominant_streak: 1,
        }) && !is_secondary_turn(state, Some(known)),
        known.secondary_within ==> !is_secondary_turn(state, Some(known)) && interleave_after(
            state,
            Some(known),
        ) == (DualAxisInterleaveState { dominant_axis: Some(known.dominant), dominant_streak: 0 }),
{
}

// ---------------------------------------------------------------- the ends of the axes

/// One of the four directions along an axis.
pub open spec fn is_straight(direction: PtzDirection) -> bool {
    direction == PtzDirection::Left || direction == PtzDirection::Right || direction
        == PtzDirection::Up || direction == PtzDirection::Down
}

/// The state after asking for the same risky push several times.
pub open spec fn asked_often(direction: PtzDirection, times: nat) -> EdgePushLockoutState
    decreases times,
{
    if times == 0 {
        free_lockout()
    } else {
        lockout_after(asked_often(direction, (times - 1) as nat), direction, true)
    }
}

proof fn lemma_asked_often(direction: PtzDirection, times: nat)
    requires
        is_straight(direction),
    ensures
        slot_of(asked_often(direction, times), direction) matches Some(slot) && {
            &&& times % 4 == 0 ==> slot.risky_streak == 0 && slot.lockout_steps == 0
            &&& times % 4 == 1 ==> slot.risky_streak == 1 && slot.lockout_steps == 0
            &&& times % 4 == 2 ==> slot.risky_streak == 0 && slot.lockout_steps == 2
            &&& times % 4 == 3 ==> slot.risky_streak == 0 && slot.lockout_steps == 1
        },
    decreases times,
{
    if times > 0 {
        lemma_asked_often(direction, (times - 1) as nat);
    }
}

/// Of the risky pushes in one direction, the first is made, the next three are held back,
/// and so on.
pub proof fn law_risky_pushes_are_held_back(direction: PtzDirection, times: nat)
    requires
        is_straight(direction),
    ensures
        blocks(asked_often(direction, times), direction, true) <==> times % 4 != 0,
{
    lemma_asked_often(direction, times);
}

/// A push that is not risky is made, whatever was held back before, and frees its direction.
pub proof fn law_safe_pushes_are_made(state: EdgePushLockoutState, direction: PtzDirection)
    ensures
        !blocks(state, direction, false),
        is_straight(direction) ==> !blocks(
            lockout_after(state, direction, false),
            direction,
            true,
        ),
{
}

/// Asking for a push in one direction changes nothing for the other directions.
pub proof fn law_directions_are_held_back_apart(
    state: EdgePushLockoutState,
    direction: PtzDirection,
    other: PtzDirection,
    risky: bool,
)
    requires
        other != direction,
    ensures
        slot_of(lockout_after(state, direction, risky), other) == slot_of(state, other),
        direction != PtzDirection::Left ==> lockout_after(state, direction, risky).left == state.left,
        direction != PtzDirection::Right ==> lockout_after(state, direction, risky).right
            == state.right,
        direction != PtzDirection::Up ==> lockout_after(state, direction, risky).up == state.up,
        direction != PtzDirection::Down ==> lockout_after(state, direction, risky).down
            == state.down,
{
}

/// Whether a push is risky is what was found for its own direction.
pub proof fn law_risk_is_of_the_direction(risky: RiskyPushes)
    ensures
        is_risky(risky, PtzDirection::Left) == risky.left,
        is_risky(risky, PtzDirection::Right) == risky.right,
        is_risky(risky, PtzDirection::Up) == risky.up,
        is_risky(risky, PtzDirection::Down) == risky.down,
        !is_risky(risky, PtzDirection::LeftUp),
        !is_risky(risky, PtzDirection::RightDown),
{
}

/// A push that is held back gives way to the one on the other axis, if that is free.
pub proof fn law_held_back_push_gives_way(
    state: EdgePushLockoutState,
    direction: PtzDirection,
    pan_push: Option<PtzDirection>,
    tilt_push: Option<PtzDirection>,
    risky: RiskyPushes,
)
    requires
        is_straight(direction),
        blocks(state, direction, is_risky(risky, direction)),
    ensures
        guarded_push(state, Some(direction), pan_push, tilt_push, risky).2,
        ({
            let other = if direction == PtzDirection::Left || direction == PtzDirection::Right {
                tilt_push
            } else {
                pan_push
            };
            let made = guarded_push(state, Some(direction), pan_push, tilt_push, risky).1;
            &&& other is None ==> made is None
            &&& (other matches Some(way) && !is_risky(risky, way)) ==> made == other
            &&& made is Some ==> made == other
        }),
        guarded_push(state, None, pan_push, tilt_push, risky) == (
            state,
            None::<PtzDirection>,
            false,
        ),
{
}

/// A push that is not held back is made as it was selected.
pub proof fn law_free_push_is_made(
    state: EdgePushLockoutState,
    direction: PtzDirection,
    pan_push: Option<PtzDirection>,
    tilt_push: Option<PtzDirection>,
    risky: RiskyPushes,
)
    requires
        !is_risky(risky, direction),
    ensures
        guarded_push(state, Some(direction), pan_push, tilt_push, risky).1 == Some(direction),
        !guarded_push(state, Some(direction), pan_push, tilt_push, risky).2,
{
}

/// A push along the axis that does not lag is noted, and one along the axis that does is not.
pub proof fn law_lag_is_noted(direction: PtzDirection)
    ensures
        is_off_axis(direction, Some(ControlAxis::Pan)) <==> direction == PtzDirection::Up
            || direction == PtzDirection::Down,
        is_off_axis(direction, Some(ControlAxis::Tilt)) <==> direction == PtzDirection::Left
            || direction == PtzDirection::Right,
        !is_off_axis(direction, None),
{
}

/// What is counted when a push is made: that it is off the axis that lags, that it is risky,
/// and that another was held back. Nothing is counted twice, and nothing else changes.
pub proof fn law_pushes_are_counted(state: LoopState, reading: PushReading)
    requires
        state.failure_modes.axis_swap_lag_hits < u64::MAX,
        state.failure_modes.edge_saturation_hits < u64::MAX,
        state.edge_lockout_blocks < u64::MAX,
    ensures
        ({
            let after = selected(state, reading);
            let made = push_of(state, reading).1;
            &&& after.edge_lockout_blocks == state.edge_lockout_blocks + if push_of(
                state,
                reading,
            ).2 {
                1int
            } else {
                0int
            }
            &&& after.failure_modes.axis_swap_lag_hits == state.failure_modes.axis_swap_lag_hits
                + if made is Some && is_off_axis(made->0, reading.lagging_axis) {
                1int
            } else {
                0int
            }
            &&& after.failure_modes.edge_saturation_hits
                == state.failure_modes.edge_saturation_hits + if made is Some && is_risky(
                reading.risky,
                made->0,
            ) {
                1int
            } else {
                0int
            }
            &&& after.failure_modes.model_mismatch_hits == state.failure_modes.model_mismatch_hits
            &&& after.failure_modes.stale_status_hits == state.failure_modes.stale_status_hits
            &&& after.best == state.best
            &&& after.loop_updates == state.loop_updates
            &&& after.stable_steps == state.stable_steps
        }),
{
}

// ---------------------------------------------------------------- readings

/// The error of a position on an axis is how far its count is from the target of that axis.
pub proof fn law_errors_are_distances(pan: (i64, i64), tilt: (i64, i64))
    ensures
        ({
            let seen = observed_at(pan.0, tilt.0, pan.1, tilt.1);
            &&& seen.pan_count == pan.0
            &&& seen.tilt_count == tilt.0
            &&& pan.1 >= pan.0 ==> seen.pan_abs_error == pan.1 - pan.0
            &&& pan.1 <= pan.0 ==> seen.pan_abs_error == pan.0 - pan.1
            &&& tilt.1 >= tilt.0 ==> seen.tilt_abs_error == tilt.1 - tilt.0
            &&& tilt.1 <= tilt.0 ==> seen.tilt_abs_error == tilt.0 - tilt.1
        }),
{
}

pub open spec fn larger(a: int, b: int) -> int {
    if a > b {
        a
    } else {
        b
    }
}

/// The best position is replaced exactly where the reading is nearer to the target: where
/// the larger of its errors is smaller, or is the same and the errors together are smaller.
pub proof fn law_best_is_the_nearer(state: LoopState, reading: LoopReading, best: BestObservedState)
    requires
        state.best == Some(best),
    ensures
        ({
            let seen = observed_at(
                reading.pan_count,
                reading.tilt_count,
                reading.target_pan_count,
                reading.target_tilt_count,
            );
            let worst = larger(seen.pan_abs_error as int, seen.tilt_abs_error as int);
            let known = larger(best.pan_abs_error as int, best.tilt_abs_error as int);
            let total = seen.pan_abs_error + seen.tilt_abs_error;
            let known_total = best.pan_abs_error + best.tilt_abs_error;
            let nearer = worst < known || (worst == known && total < known_total);
            &&& nearer ==> observed(state, reading).best == Some(seen) && observed(
                state,
                reading,
            ).best_age_steps == 0
            &&& !nearer ==> observed(state, reading).best == Some(best) && (state.best_age_steps
                < u64::MAX ==> observed(state, reading).best_age_steps == state.best_age_steps + 1)
        }),
{
}

/// The first reading is the best position.
pub proof fn law_first_reading_is_the_best(state: LoopState, reading: LoopReading)
    requires
        state.best is None,
    ensures
        observed(state, reading).best matches Some(best) && best.pan_count == reading.pan_count
            && best.tilt_count == reading.tilt_count,
        observed(state, reading).best_age_steps == 0,
{
}

/// What a reading is counted for: that it came, whether it is at the target, whether the
/// camera moved as it was expected to and whether it moved at all, and how each axis swings.
pub proof fn law_readings_are_counted(state: LoopState, reading: LoopReading)
    requires
        state.loop_updates < u64::MAX,
        state.grace_steps < u64::MAX,
        state.failure_modes.model_mismatch_hits < u64::MAX,
        state.failure_modes.stale_status_hits < u64::MAX,
        state.stale_status_streak < u64::MAX,
    ensures
        ({
            let after = observed(state, reading);
            let pan_off = reading.target_pan_count - reading.pan_count;
            let tilt_off = reading.target_tilt_count - reading.tilt_count;
            let there = !is_off(pan_off, reading.strict.pan_count) && !is_off(
                tilt_off,
                reading.strict.tilt_count,
            ) && -reading.tolerance_count <= pan_off <= reading.tolerance_count
                && -reading.tolerance_count <= tilt_off <= reading.tolerance_count;
            let stuck = reading.commanded && reading.stationary;
            &&& after.loop_updates == state.loop_updates + 1
            &&& there ==> after.grace_steps == state.grace_steps + 1
            &&& !there ==> after.grace_steps == 0
            &&& reading.model_mismatch ==> after.mismatch_cooldown_steps == 3
                && after.failure_modes.model_mismatch_hits
                == state.failure_modes.model_mismatch_hits + 1 && after.interleave
                == no_interleave()
            &&& !reading.model_mismatch ==> after.mismatch_cooldown_steps
                == state.mismatch_cooldown_steps && after.failure_modes.model_mismatch_hits
                == state.failure_modes.model_mismatch_hits && after.interleave == state.interleave
            &&& stuck ==> after.stale_status_streak == state.stale_status_streak + 1
            &&& !stuck ==> after.stale_status_streak == 0
            &&& after.failure_modes.stale_status_hits == state.failure_modes.stale_status_hits
                + if stuck && state.stale_status_streak >= 1 {
                1int
            } else {
                0int
            }
            &&& after.pan_reversals == reversals_after(state.pan_reversals, reading.pan_swing)
            &&& after.tilt_reversals == reversals_after(state.tilt_reversals, reading.tilt_swing)
            &&& after.stable_steps == state.stable_steps
            &&& after.edge_push_lockout == state.edge_push_lockout
            &&& after.failure_modes.axis_swap_lag_hits == state.failure_modes.axis_swap_lag_hits
            &&& after.failure_modes.edge_saturation_hits
                == state.failure_modes.edge_saturation_hits
        }),
{
}

/// An error that changes its sign near the target is one reversal more, a calm one is one
/// less, and one far from the target forgets them all.
pub proof fn law_reversals_are_counted(reversals: u64)
    ensures
        reversals < u64::MAX ==> reversals_after(reversals, Swing::Reversed) == reversals + 1,
        reversals > 0 ==> reversals_after(reversals, Swing::Calm) == reversals - 1,
        reversals_after(0, Swing::Calm) == 0,
        reversals_after(reversals, Swing::Far) == 0,
{
}

/// Two good readings in a row are needed, and one where the camera swings about the target
/// six times or more.
pub proof fn law_good_readings_needed(pan_reversals: u64, tilt_reversals: u64)
    ensures
        required_steps(pan_reversals, tilt_reversals) == 1 <==> pan_reversals + tilt_reversals >= 6,
        required_steps(pan_reversals, tilt_reversals) == 2 <==> pan_reversals + tilt_reversals < 6,
{
}

/// The tolerance that the loop works towards is the smaller of the strict one and the one
/// that was asked for, on each axis.
pub proof fn law_tolerance_is_the_smaller(strict: StrictTolerances, tolerance_count: i64)
    ensures
        tolerance_count >= 0 ==> narrowed(strict, tolerance_count).pan_count <= tolerance_count
            && narrowed(strict, tolerance_count).tilt_count <= tolerance_count,
        narrowed(strict, tolerance_count).pan_count <= strict.pan_count,
        narrowed(strict, tolerance_count).tilt_count <= strict.tilt_count,
        tolerance_count >= strict.pan_count ==> narrowed(strict, tolerance_count).pan_count
            == strict.pan_count,
        tolerance_count >= strict.tilt_count ==> narrowed(strict, tolerance_count).tilt_count
            == strict.tilt_count,
        0 <= tolerance_count <= strict.pan_count ==> narrowed(strict, tolerance_count).pan_count
            == tolerance_count,
        0 <= tolerance_count <= strict.tilt_count ==> narrowed(strict, tolerance_count).tilt_count
            == tolerance_count,
{
}

// ---------------------------------------------------------------- the verdict

/// A count is within the strict tolerance of its target, and within the one asked for.
pub open spec fn is_there(count: int, target: int, strict: u64, tolerance_count: i64) -> bool {
    &&& !is_off(target - count, strict)
    &&& -tolerance_count <= target - count <= tolerance_count
}

pub open spec fn both_there(pan: int, tilt: int, evidence: LoopEvidence) -> bool {
    is_there(
        pan,
        evidence.target_pan_count as int,
        evidence.strict.pan_count,
        evidence.tolerance_count,
    ) && is_there(
        tilt,
        evidence.target_tilt_count as int,
        evidence.strict.tilt_count,
        evidence.tolerance_count,
    )
}

/// Without word from the camera, the target is reached at the second good reading in a row:
/// at the target on both axes, with the position standing still, after enough readings.
pub proof fn law_target_is_reached(
    state: LoopState,
    evidence: LoopEvidence,
    current: PtzRawPosition,
)
    requires
        evidence.hint is None,
        evidence.settling_steps >= 2,
        both_there(current.pan_count as int, current.tilt_count as int, evidence),
        state.loop_updates >= evidence.min_updates,
        state.stable_steps >= 1,
    ensures
        verdict_of(state, evidence, current) == LoopVerdict::Reached(current),
        state.stable_steps < u64::MAX ==> stable_steps_after(state, evidence, current)
            == state.stable_steps + 1,
{
}

/// While it is away from the target on either axis, and the best position is away from it by
/// more than the tolerance asked for, the movement goes on until the time is over, and then
/// it has failed.
pub proof fn law_movement_goes_on_while_off(
    state: LoopState,
    evidence: LoopEvidence,
    current: PtzRawPosition,
    best: BestObservedState,
)
    requires
        state.best == Some(best),
        best == observed_at(
            best.pan_count,
            best.tilt_count,
            evidence.target_pan_count,
            evidence.target_tilt_count,
        ),
        !both_there(current.pan_count as int, current.tilt_count as int, evidence),
        evidence.tolerance_count >= 0,
        is_off(evidence.target_pan_count - best.pan_count, evidence.tolerance_count as u64)
            || is_off(evidence.target_tilt_count - best.tilt_count, evidence.tolerance_count as u64),
    ensures
        !evidence.deadline_passed ==> verdict_of(state, evidence, current) == LoopVerdict::Continue,
        evidence.deadline_passed ==> verdict_of(state, evidence, current) is TimedOut,
        stable_steps_after(state, evidence, current) == 0,
{
}

/// The best position is taken where it is at the target and has not improved for six
/// readings, unless the camera says that it moves: with its own counts, pan as pan and tilt
/// as tilt.
pub proof fn law_best_position_is_taken(
    state: LoopState,
    evidence: LoopEvidence,
    current: PtzRawPosition,
    best: BestObservedState,
)
    requires
        state.best == Some(best),
        best == observed_at(
            best.pan_count,
            best.tilt_count,
            evidence.target_pan_count,
            evidence.target_tilt_count,
        ),
        both_there(best.pan_count as int, best.tilt_count as int, evidence),
        !both_there(current.pan_count as int, current.tilt_count as int, evidence),
    ensures
        evidence.hint is None && state.best_age_steps >= 6 ==> (verdict_of(state, evidence, current)
            matches LoopVerdict::Latched(position) && position.pan_count == best.pan_count
            && position.tilt_count == best.tilt_count && position.channel == current.channel),
        evidence.hint is None && state.best_age_steps < 6 && !evidence.deadline_passed
            ==> verdict_of(state, evidence, current) == LoopVerdict::Continue,
        (evidence.hint matches Some(known) && known.moving == Some(true) && !evidence.deadline_passed)
            ==> verdict_of(state, evidence, current) == LoopVerdict::Continue,
{
}

// ---------------------------------------------------------------- pulses

/// What is expected of a push: a movement along its axis in its direction, for its time, and
/// nothing of a push without a time.
pub proof fn law_pushes_are_expected(pulse_ms: u64, edge_band: bool)
    ensures
        pulse_ms > 0 ==> {
            &&& pending_pulse(PtzDirection::Right, pulse_ms, edge_band) matches Some(pending)
                && pending.axis == ControlAxis::Pan && pending.direction == AxisDirection::Positive
                && pending.pulse_ms == pulse_ms && pending.edge_band == edge_band
            &&& pending_pulse(PtzDirection::Left, pulse_ms, edge_band) matches Some(pending)
                && pending.axis == ControlAxis::Pan && pending.direction == AxisDirection::Negative
                && pending.pulse_ms == pulse_ms && pending.edge_band == edge_band
            &&& pending_pulse(PtzDirection::Up, pulse_ms, edge_band) matches Some(pending)
                && pending.axis == ControlAxis::Tilt && pending.direction == AxisDirection::Positive
                && pending.pulse_ms == pulse_ms && pending.edge_band == edge_band
            &&& pending_pulse(PtzDirection::Down, pulse_ms, edge_band) matches Some(pending)
                && pending.axis == ControlAxis::Tilt && pending.direction == AxisDirection::Negative
                && pending.pulse_ms == pulse_ms && pending.edge_band == edge_band
        },
        pending_pulse(PtzDirection::Right, 0, edge_band) is None,
        pending_pulse(PtzDirection::LeftUp, pulse_ms, edge_band) is None,
{
}

/// A push is never made longer than it was, but for one that would have no time at all, and
/// never faster, but for one without a speed. Near the target it goes at the lowest speed for
/// 45 milliseconds at most, and far from it, where nothing slows it, it is left as it was.
pub proof fn law_pulses_are_cut(
    direction: PtzDirection,
    base_speed: u8,
    base_pulse_ms: u64,
    context: PulseContext,
    reversals: int,
)
    ensures
        ({
            let (speed, pulse_ms) = shaped_pulse(
                direction,
                base_speed,
                base_pulse_ms,
                context,
                reversals,
            );
            &&& pulse_ms <= base_pulse_ms || pulse_ms == 8
            &&& 1 <= speed <= larger(base_speed as int, 1)
            &&& context.near_target ==> speed == 1 && pulse_ms <= 45
            &&& !context.near_target && !context.tilt_edge_ahead && !context.within_damping_band
                && !context.pan_reversal_now && !context.tilt_reversal_now && base_speed >= 1
                && base_pulse_ms > 0 ==> speed == base_speed && pulse_ms == base_pulse_ms
            &&& context.tilt_edge_ahead && (direction == PtzDirection::Up || direction
                == PtzDirection::Down) ==> speed == 1 && pulse_ms <= 20
            &&& context.within_damping_band && reversals >= 3 ==> speed == 1 && pulse_ms <= 20
            &&& context.pan_reversal_now && context.pan_error_small && (direction
                == PtzDirection::Left || direction == PtzDirection::Right) ==> speed == 1
                && pulse_ms <= 10
            &&& context.tilt_reversal_now && context.tilt_error_small && (direction
                == PtzDirection::Up || direction == PtzDirection::Down) ==> speed == 1 && pulse_ms
                <= 10
            &&& is_straight(direction) && context.beyond_strict_tolerance ==> pulse_ms > 0
        }),
{
}

// ---------------------------------------------------------------- learning

/// The length of a push is learned from, where it was a candidate, lasted ten milliseconds or
/// more, went along one axis, and its own axis does not turn round just now.
pub proof fn law_what_is_learned_from(
    direction: PtzDirection,
    candidate: bool,
    pulse_ms: u64,
    pan_turns: bool,
    tilt_turns: bool,
)
    ensures
        direction == PtzDirection::Left || direction == PtzDirection::Right ==> (may_learn(
            direction,
            candidate,
            pulse_ms,
            pan_turns,
            tilt_turns,
        ) <==> candidate && pulse_ms >= 10 && !pan_turns),
        direction == PtzDirection::Up || direction == PtzDirection::Down ==> (may_learn(
            direction,
            candidate,
            pulse_ms,
            pan_turns,
            tilt_turns,
        ) <==> candidate && pulse_ms >= 10 && !tilt_turns),
        !is_straight(direction) ==> !may_learn(
            direction,
            candidate,
            pulse_ms,
            pan_turns,
            tilt_turns,
        ),
{
}

/// How long a push lasts exactly: near the target no longer than 45 milliseconds, and no
/// longer than 20 where it is slowed and than 10 where its axis turns round; a tilt with a
/// tiny error takes no time; but a push that is needed lasts 8 at least where it would last
/// none.
pub proof fn law_pulses_are_cut_exactly(
    direction: PtzDirection,
    base_speed: u8,
    base_pulse_ms: u64,
    context: PulseContext,
    reversals: int,
)
    requires
        base_pulse_ms > 0,
        is_straight(direction),
        !context.tilt_micro_error,
    ensures
        ({
            let tilts = direction == PtzDirection::Up || direction == PtzDirection::Down;
            let turns = if tilts {
                context.tilt_reversal_now && context.tilt_error_small
            } else {
                context.pan_reversal_now && context.pan_error_small
            };
            let slowed = turns || (tilts && context.tilt_edge_ahead) || (reversals >= 3
                && context.within_damping_band);
            let most: int = if turns {
                10
            } else if slowed {
                20
            } else if context.near_target {
                45
            } else {
                base_pulse_ms as int
            };
            let (speed, pulse_ms) = shaped_pulse(
                direction,
                base_speed,
                base_pulse_ms,
                context,
                reversals,
            );
            &&& base_pulse_ms <= most ==> pulse_ms == base_pulse_ms
            &&& base_pulse_ms > most ==> pulse_ms == most
            &&& context.near_target || slowed || base_speed == 0 ==> speed == 1
            &&& !context.near_target && !slowed && base_speed > 0 ==> speed == base_speed
        }),
{
}

/// A tilt with a tiny error near the target takes no time, or eight milliseconds where it is
/// needed; a pan takes its time.
pub proof fn law_tiny_tilts(direction: PtzDirection, base_pulse_ms: u64, context: PulseContext)
    requires
        context.near_target,
        context.tilt_micro_error,
        direction == PtzDirection::Up || direction == PtzDirection::Down,
    ensures
        context.beyond_strict_tolerance ==> shaped_pulse(direction, 1, base_pulse_ms, context, 0).1
            == 8,
        !context.beyond_strict_tolerance ==> shaped_pulse(
            direction,
            1,
            base_pulse_ms,
            context,
            0,
        ).1 == 0,
{
}

// ---------------------------------------------------------------- near misses

/// A best position that misses the strict tolerance on one axis by eight counts at most, while
/// it is within what was asked for, is taken where it has not improved for six readings and
/// the camera does not say whether it moves.
pub proof fn law_near_misses_are_taken(
    state: LoopState,
    evidence: LoopEvidence,
    current: PtzRawPosition,
    best: BestObservedState,
)
    requires
        state.best == Some(best),
        best == observed_at(
            best.pan_count,
            best.tilt_count,
            evidence.target_pan_count,
            evidence.target_tilt_count,
        ),
        !both_there(current.pan_count as int, current.tilt_count as int, evidence),
        evidence.tolerance_count >= 0,
        best.pan_abs_error <= evidence.tolerance_count,
        best.tilt_abs_error <= evidence.tolerance_count,
        evidence.strict.pan_count < best.pan_abs_error,
        best.tilt_abs_error <= evidence.strict.tilt_count,
        !evidence.deadline_passed,
    ensures
        evidence.hint is None && state.best_age_steps >= 6 && best.pan_abs_error
            <= evidence.strict.pan_count + 8 ==> (verdict_of(state, evidence, current)
            matches LoopVerdict::Latched(position) && position.pan_count == best.pan_count
            && position.tilt_count == best.tilt_count),
        best.pan_abs_error > evidence.strict.pan_count + 8 ==> verdict_of(state, evidence, current)
            == LoopVerdict::Continue,
        state.best_age_steps < 6 ==> verdict_of(state, evidence, current) == LoopVerdict::Continue,
        (evidence.hint matches Some(known) && known.moving is Some) ==> verdict_of(
            state,
            evidence,
            current,
        ) == LoopVerdict::Continue,
{
}

/// The same on the other axis.
pub proof fn law_near_misses_of_tilt_are_taken(
    state: LoopState,
    evidence: LoopEvidence,
    current: PtzRawPosition,
    best: BestObservedState,
)
    requires
        state.best == Some(best),
        best == observed_at(
            best.pan_count,
            best.tilt_count,
            evidence.target_pan_count,
            evidence.target_tilt_count,
        ),
        !both_there(current.pan_count as int, current.tilt_count as int, evidence),
        evidence.tolerance_count >= 0,
        best.pan_abs_error <= evidence.tolerance_count,
        best.tilt_abs_error <= evidence.tolerance_count,
        evidence.strict.tilt_count < best.tilt_abs_error,
        best.pan_abs_error <= evidence.strict.pan_count,
        !evidence.deadline_passed,
    ensures
        evidence.hint is None && state.best_age_steps >= 6 && best.tilt_abs_error
            <= evidence.strict.tilt_count + 8 ==> (verdict_of(state, evidence, current)
            matches LoopVerdict::Latched(position) && position.pan_count == best.pan_count
            && position.tilt_count == best.tilt_count),
        best.tilt_abs_error > evidence.strict.tilt_count + 8 ==> verdict_of(
            state,
            evidence,
            current,
        ) == LoopVerdict::Continue,
        state.best_age_steps < 6 ==> verdict_of(state, evidence, current) == LoopVerdict::Continue,
{
}

/// When the time is over, a best position at the target is taken where the position stands
/// still or the error is small, unless the camera says that it moves.
pub proof fn law_best_position_when_time_is_over(
    state: LoopState,
    evidence: LoopEvidence,
    current: PtzRawPosition,
    best: BestObservedState,
)
    requires
        state.best == Some(best),
        best == observed_at(
            best.pan_count,
            best.tilt_count,
            evidence.target_pan_count,
            evidence.target_tilt_count,
        ),
        both_there(best.pan_count as int, best.tilt_count as int, evidence),
        !both_there(current.pan_count as int, current.tilt_count as int, evidence),
        evidence.deadline_passed,
        state.best_age_steps < 6,
    ensures
        evidence.hint is None && (evidence.settling_steps >= 1 || evidence.error_is_small) ==> (
        verdict_of(state, evidence, current) matches LoopVerdict::Latched(position)
            && position.pan_count == best.pan_count && position.tilt_count == best.tilt_count),
        evidence.settling_steps == 0 && !evidence.error_is_small ==> verdict_of(
            state,
            evidence,
            current,
        ) is TimedOut,
        (evidence.hint matches Some(known) && known.moving == Some(true)) ==> verdict_of(
            state,
            evidence,
            current,
        ) is TimedOut,
{
}

/// When the time is over and the camera is at the target, it has reached it where its position
/// has settled, or where it has been there for three readings and stood still at one.
pub proof fn law_target_when_time_is_over(
    state: LoopState,
    evidence: LoopEvidence,
    current: PtzRawPosition,
)
    requires
        evidence.hint is None,
        evidence.deadline_passed,
        both_there(current.pan_count as int, current.tilt_count as int, evidence),
        state.best is None,
    ensures
        evidence.settling_steps >= 2 || (evidence.settling_steps >= 1 && state.grace_steps >= 3)
            ==> verdict_of(state, evidence, current) == LoopVerdict::Reached(current),
        evidence.settling_steps == 0 && !evidence.error_is_small && state.best_age_steps < 6 ==> verdict_of(
            state,
            evidence,
            current,
        ) is TimedOut,
{
}

} // verus!
