//! The loop that moves the camera to a position, as a state and its steps: a reading is
//! observed, the movement is judged, and if it is not over, a push is selected.
use crate::model::PtzDirection;
use crate::usecases::failure_modes::{no_failures, FailureModeCounters};
use crate::usecases::ptz_control_loop::{
    axis_of, better_of, consider_best, control_axis_direction, distance,
    forced_secondary_axis_command,
    free_lockout, guarded_push, improves, interleave_after, is_risky, is_secondary_turn, next,
    no_interleave, observe_position, observed_at, previous, required_stable_steps_for_oscillation, required_steps,
    reversals_after, select_command_with_edge_push_lockout, slot_of, stale_status_detected,
    stale_streak_after, total_error, update_reversal_counter, worst_error, BestObservedState,
    ControlAxis, DualAxisInterleaveState, EdgePushDirectionLockout, EdgePushLockoutState,
    InterleaveReading, RiskyPushes, Swing, BACKEND_POSITION_STABLE_REQUIRED_STEPS,
    BACKEND_POSITION_STABLE_REQUIRED_STEPS_FALLBACK, DUAL_AXIS_CLOSE_NO_PROGRESS_TOGGLE_STEPS,
    FAILURE_DIAG_STALE_STREAK_MIN, MODEL_MISMATCH_RECOVERY_STEPS, STRICT_COMPLETION_GRACE_STEPS,
    SUCCESS_LATCH_MIN_SETTLING_STEPS, SUCCESS_LATCH_STAGNATION_MIN_BEST_AGE_STEPS,
    SUCCESS_LATCH_STAGNATION_NEAR_MISS_MARGIN_COUNT,
};
use crate::usecases::ptz_control_loop::{holds_back, slot_after};
use crate::usecases::ptz_get_absolute_raw::PtzRawPosition;
use crate::usecases::ptz_settle_gate::{
    capable_gate_allows_success, capable_gate_open, CompletionGateCapabilities,
};
use crate::usecases::ptz_transport::TransportMotionHint;
use vstd::prelude::*;

verus! {

/// The state of the loop between two steps.
#[derive(Debug, Clone, Copy, PartialEq, Eq, Structural)]
pub struct LoopState {
    pub loop_updates: u64,
    pub stable_steps: u64,
    pub grace_steps: u64,
    pub best: Option<BestObservedState>,
    pub best_age_steps: u64,
    pub failure_modes: FailureModeCounters,
    pub edge_push_lockout: EdgePushLockoutState,
    pub edge_lockout_blocks: u64,
    pub interleave: DualAxisInterleaveState,
    pub stale_status_streak: u64,
    pub pan_reversals: u64,
    pub tilt_reversals: u64,
    pub mismatch_cooldown_steps: u64,
    pub no_progress_steps: u64,
    pub tie_break_pan: bool,
}

/// The state before the first reading.
pub open spec fn first_state() -> LoopState {
    LoopState {
        loop_updates: 0,
        stable_steps: 0,
        grace_steps: 0,
        best: None,
        best_age_steps: 0,
        failure_modes: no_failures(),
        edge_push_lockout: free_lockout(),
        edge_lockout_blocks: 0,
        interleave: no_interleave(),
        stale_status_streak: 0,
        pan_reversals: 0,
        tilt_reversals: 0,
        mismatch_cooldown_steps: 0,
        no_progress_steps: 0,
        tie_break_pan: true,
    }
}

/// A reading of the position, with what was found out about it.
#[derive(Debug, Clone, Copy, PartialEq, Eq, Structural)]
pub struct LoopReading {
    pub pan_count: i64,
    pub tilt_count: i64,
    pub target_pan_count: i64,
    pub target_tilt_count: i64,
    pub pan_swing: Swing,
    pub tilt_swing: Swing,
    /// The camera did not move as it was expected to.
    pub model_mismatch: bool,
    /// The camera was moved before the reading.
    pub commanded: bool,
    /// Neither axis has moved since the last reading.
    pub stationary: bool,
    pub strict: StrictTolerances,
    /// The tolerance that was asked for.
    pub tolerance_count: i64,
}

/// The largest errors, in whole counts, with which the camera counts as being at the target.
#[derive(Debug, Clone, Copy, PartialEq, Eq, Structural)]
pub struct StrictTolerances {
    pub pan_count: u64,
    pub tilt_count: u64,
}

/// A position is within the strict tolerance on both axes.
pub open spec fn is_within(seen: BestObservedState, strict: StrictTolerances) -> bool {
    seen.pan_abs_error <= strict.pan_count && seen.tilt_abs_error <= strict.tilt_count
}

/// A position misses the strict tolerance on one axis only, and by no more than the margin.
pub open spec fn barely_misses(
    seen: BestObservedState,
    strict: StrictTolerances,
    margin_count: int,
) -> bool {
    ||| seen.tilt_abs_error <= strict.tilt_count && strict.pan_count < seen.pan_abs_error
        <= strict.pan_count + margin_count
    ||| seen.pan_abs_error <= strict.pan_count && strict.tilt_count < seen.tilt_abs_error
        <= strict.tilt_count + margin_count
}

/// A position is within the tolerance that was asked for, on both axes.
pub open spec fn is_close(seen: BestObservedState, tolerance_count: i64) -> bool {
    seen.pan_abs_error <= tolerance_count && seen.tilt_abs_error <= tolerance_count
}

/// A position counts as being at the target: within the strict tolerance and within the
/// one that was asked for.
pub open spec fn is_at_target(
    seen: BestObservedState,
    strict: StrictTolerances,
    tolerance_count: i64,
) -> bool {
    is_within(seen, strict) && is_close(seen, tolerance_count)
}

/// The strict tolerance as far as the one that was asked for allows.
pub open spec fn narrowed(strict: StrictTolerances, tolerance_count: i64) -> StrictTolerances {
    StrictTolerances {
        pan_count: smaller(strict.pan_count, tolerance_count),
        tilt_count: smaller(strict.tilt_count, tolerance_count),
    }
}

pub open spec fn smaller(count: u64, tolerance_count: i64) -> u64 {
    if tolerance_count < 0 {
        0
    } else if tolerance_count < count {
        tolerance_count as u64
    } else {
        count
    }
}

fn smaller_of(count: u64, tolerance_count: i64) -> (r: u64)
    ensures
        r == smaller(count, tolerance_count),
{
    if tolerance_count < 0 {
        0
    } else if (tolerance_count as u64) < count {
        tolerance_count as u64
    } else {
        count
    }
}

/// The errors that the loop works towards.
pub fn narrow_tolerances(strict: StrictTolerances, tolerance_count: i64) -> (r: StrictTolerances)
    ensures
        r == narrowed(strict, tolerance_count),
{
    StrictTolerances {
        pan_count: smaller_of(strict.pan_count, tolerance_count),
        tilt_count: smaller_of(strict.tilt_count, tolerance_count),
    }
}

/// Whether a position is within the tolerance that was asked for.
pub fn within_tolerance(seen: &BestObservedState, tolerance_count: i64) -> (r: bool)
    ensures
        r == is_close(*seen, tolerance_count),
{
    tolerance_count >= 0 && seen.pan_abs_error <= tolerance_count as u64 && seen.tilt_abs_error
        <= tolerance_count as u64
}

fn at_target(seen: &BestObservedState, strict: StrictTolerances, tolerance_count: i64) -> (r: bool)
    ensures
        r == is_at_target(*seen, strict, tolerance_count),
{
    best_within_success_tolerance(seen, strict) && within_tolerance(seen, tolerance_count)
}

pub fn best_within_success_tolerance(best: &BestObservedState, strict: StrictTolerances) -> (r: bool)
    ensures
        r == is_within(*best, strict),
{
    best.pan_abs_error <= strict.pan_count && best.tilt_abs_error <= strict.tilt_count
}

pub fn best_stagnation_near_miss_eligible(
    best: &BestObservedState,
    strict: StrictTolerances,
    margin_count: u64,
) -> (r: bool)
    ensures
        r == barely_misses(*best, strict, margin_count as int),
{
    let pan_over = best.pan_abs_error > strict.pan_count;
    let tilt_over = best.tilt_abs_error > strict.tilt_count;
    if pan_over && !tilt_over {
        best.pan_abs_error - strict.pan_count <= margin_count
    } else if tilt_over && !pan_over {
        best.tilt_abs_error - strict.tilt_count <= margin_count
    } else {
        false
    }
}

/// The state after a reading.
pub open spec fn observed(state: LoopState, reading: LoopReading) -> LoopState {
    let candidate = observed_at(
        reading.pan_count,
        reading.tilt_count,
        reading.target_pan_count,
        reading.target_tilt_count,
    );
    let streak = stale_streak_after(
        state.stale_status_streak,
        reading.commanded,
        reading.stationary,
    );
    LoopState {
        loop_updates: next(state.loop_updates),
        grace_steps: if is_at_target(candidate, reading.strict, reading.tolerance_count) {
            next(state.grace_steps)
        } else {
            0
        },
        best: Some(better_of(state.best, candidate)),
        best_age_steps: if improves(state.best, candidate) {
            0
        } else {
            next(state.best_age_steps)
        },
        failure_modes: FailureModeCounters {
            model_mismatch_hits: if reading.model_mismatch {
                next(state.failure_modes.model_mismatch_hits)
            } else {
                state.failure_modes.model_mismatch_hits
            },
            stale_status_hits: if streak >= FAILURE_DIAG_STALE_STREAK_MIN {
                next(state.failure_modes.stale_status_hits)
            } else {
                state.failure_modes.stale_status_hits
            },
            ..state.failure_modes
        },
        interleave: if reading.model_mismatch {
            no_interleave()
        } else {
            state.interleave
        },
        stale_status_streak: streak,
        pan_reversals: reversals_after(state.pan_reversals, reading.pan_swing),
        tilt_reversals: reversals_after(state.tilt_reversals, reading.tilt_swing),
        mismatch_cooldown_steps: if reading.model_mismatch {
            MODEL_MISMATCH_RECOVERY_STEPS
        } else {
            state.mismatch_cooldown_steps
        },
        ..state
    }
}

// ---------------------------------------------------------------- judging

/// What bears on whether the movement is over.
#[derive(Debug, Clone, Copy, PartialEq, Eq, Structural)]
pub struct LoopEvidence {
    pub target_pan_count: i64,
    pub target_tilt_count: i64,
    pub strict: StrictTolerances,
    /// The tolerance that was asked for.
    pub tolerance_count: i64,
    /// For how many readings the position has stood still.
    pub settling_steps: usize,
    pub hint: Option<TransportMotionHint>,
    pub min_age_ms: u64,
    pub min_updates: u64,
    /// The error of the reading is a small part of the axes.
    pub error_is_small: bool,
    pub deadline_passed: bool,
}

/// What the loop comes to.
#[derive(Debug, Clone, Copy, PartialEq, Eq, Structural)]
pub enum LoopVerdict {
    /// The camera is at the target.
    Reached(PtzRawPosition),
    /// The camera was at the target, or as near as it gets.
    Latched(PtzRawPosition),
    /// The time is over. What kept the movement from counting as finished: whether the
    /// completion gate was open, and whether the best position could have been taken.
    TimedOut { completion_ready: bool, latch_eligible: bool },
    Continue,
}

/// Where the camera is, and how far from the target.
pub open spec fn seen_at(evidence: LoopEvidence, current: PtzRawPosition) -> BestObservedState {
    observed_at(
        current.pan_count,
        current.tilt_count,
        evidence.target_pan_count,
        evidence.target_tilt_count,
    )
}

/// The camera is within the strict tolerance, and within the one that was asked for.
pub open spec fn within_strict(evidence: LoopEvidence, current: PtzRawPosition) -> bool {
    is_at_target(seen_at(evidence, current), evidence.strict, evidence.tolerance_count)
}

/// The best position so far, or the one that was read.
pub open spec fn best_seen(
    state: LoopState,
    evidence: LoopEvidence,
    current: PtzRawPosition,
) -> BestObservedState {
    match state.best {
        Some(best) => best,
        None => seen_at(evidence, current),
    }
}

/// The best position so far is within the strict tolerance, and within the one that was
/// asked for.
pub open spec fn best_within(
    state: LoopState,
    evidence: LoopEvidence,
    current: PtzRawPosition,
) -> bool {
    is_at_target(best_seen(state, evidence, current), evidence.strict, evidence.tolerance_count)
}

pub open spec fn says_moving(hint: Option<TransportMotionHint>) -> Option<bool> {
    match hint {
        Some(known) => known.moving,
        None => None,
    }
}

/// The movement counts as finished as far as the camera and the readings tell.
pub open spec fn completion_ready(evidence: LoopEvidence) -> bool {
    match evidence.hint {
        Some(known) => capable_gate_open(
            known.moving,
            known.move_age_ms,
            CompletionGateCapabilities {
                reports_moving: known.moving is Some,
                reports_age: known.move_age_ms is Some,
            },
            evidence.min_age_ms,
            evidence.settling_steps as nat,
            BACKEND_POSITION_STABLE_REQUIRED_STEPS as nat,
            BACKEND_POSITION_STABLE_REQUIRED_STEPS_FALLBACK as nat,
        ),
        None => evidence.settling_steps >= BACKEND_POSITION_STABLE_REQUIRED_STEPS,
    }
}

/// As `completion_ready`, or the camera has been within the strict tolerance for a while
/// and has stood still at a reading.
pub open spec fn completion_with_grace(
    state: LoopState,
    evidence: LoopEvidence,
    current: PtzRawPosition,
) -> bool {
    completion_ready(evidence) || (within_strict(evidence, current) && state.grace_steps
        >= STRICT_COMPLETION_GRACE_STEPS && evidence.settling_steps >= 1)
}

/// The number of good readings in a row.
pub open spec fn stable_steps_after(
    state: LoopState,
    evidence: LoopEvidence,
    current: PtzRawPosition,
) -> u64 {
    if within_strict(evidence, current) && state.loop_updates >= evidence.min_updates
        && completion_with_grace(state, evidence, current) {
        next(state.stable_steps)
    } else {
        0
    }
}

/// The best position has not improved for a while, and the camera does not say that it
/// moves.
pub open spec fn is_stagnant(state: LoopState, hint: Option<TransportMotionHint>) -> bool {
    says_moving(hint) != Some(true) && state.best_age_steps
        >= SUCCESS_LATCH_STAGNATION_MIN_BEST_AGE_STEPS
}

/// The best position barely misses the strict tolerance, though not the one that was asked
/// for, and does not improve, and the camera does not say whether it moves.
pub open spec fn is_near_miss(
    state: LoopState,
    evidence: LoopEvidence,
    current: PtzRawPosition,
) -> bool {
    is_stagnant(state, evidence.hint) && says_moving(evidence.hint) is None && barely_misses(
        best_seen(state, evidence, current),
        evidence.strict,
        SUCCESS_LATCH_STAGNATION_NEAR_MISS_MARGIN_COUNT as int,
    ) && is_close(best_seen(state, evidence, current), evidence.tolerance_count)
}

/// The best position may be taken while it stands still or the error is small.
pub open spec fn latch_ready(evidence: LoopEvidence) -> bool {
    says_moving(evidence.hint) != Some(true) && (evidence.settling_steps
        >= SUCCESS_LATCH_MIN_SETTLING_STEPS || evidence.error_is_small)
}

/// The best position is taken when the time is over.
pub open spec fn latch_eligible(
    state: LoopState,
    evidence: LoopEvidence,
    current: PtzRawPosition,
) -> bool {
    is_near_miss(state, evidence, current) || (best_within(state, evidence, current) && (
    latch_ready(evidence) || is_stagnant(state, evidence.hint)))
}

/// The position that is reported for the best one: its counts, and what else was read.
pub open spec fn best_position(state: LoopState, current: PtzRawPosition) -> PtzRawPosition {
    match state.best {
        Some(best) => PtzRawPosition {
            pan_count: best.pan_count,
            tilt_count: best.tilt_count,
            ..current
        },
        None => current,
    }
}

/// What the loop comes to after a reading.
pub open spec fn verdict_of(
    state: LoopState,
    evidence: LoopEvidence,
    current: PtzRawPosition,
) -> LoopVerdict {
    if within_strict(evidence, current) && stable_steps_after(state, evidence, current)
        >= required_steps(
        state.pan_reversals,
        state.tilt_reversals,
    ) {
        LoopVerdict::Reached(current)
    } else if state.best is Some && ((is_stagnant(state, evidence.hint) && best_within(
        state,
        evidence,
        current,
    )) || is_near_miss(state, evidence, current)) {
        LoopVerdict::Latched(best_position(state, current))
    } else if !evidence.deadline_passed {
        LoopVerdict::Continue
    } else if within_strict(evidence, current) && completion_with_grace(state, evidence, current) {
        LoopVerdict::Reached(current)
    } else if latch_eligible(state, evidence, current) {
        LoopVerdict::Latched(best_position(state, current))
    } else {
        LoopVerdict::TimedOut {
            completion_ready: completion_ready(evidence),
            latch_eligible: latch_eligible(state, evidence, current),
        }
    }
}

/// The camera is known to move.
fn is_moving(hint: Option<TransportMotionHint>) -> (r: bool)
    ensures
        r == (says_moving(hint) == Some(true)),
{
    match hint {
        Some(known) => match known.moving {
            Some(moving) => moving,
            None => false,
        },
        None => false,
    }
}

pub fn backend_hint_unavailable_or_unknown(hint: Option<TransportMotionHint>) -> (r: bool)
    ensures
        r == (says_moving(hint) is None),
{
    match hint {
        Some(known) => known.moving.is_none(),
        None => true,
    }
}

pub fn success_latch_ready(
    settling_steps: usize,
    error_is_small: bool,
    hint: Option<TransportMotionHint>,
) -> (r: bool)
    ensures
        r == (says_moving(hint) != Some(true) && (settling_steps >= 1 || error_is_small)),
{
    if is_moving(hint) {
        return false;
    }
    settling_steps >= SUCCESS_LATCH_MIN_SETTLING_STEPS || error_is_small
}

pub fn success_latch_stagnation_ready(best_age_steps: u64, hint: Option<TransportMotionHint>) -> (r:
    bool)
    ensures
        r == (says_moving(hint) != Some(true) && best_age_steps >= 6),
{
    if is_moving(hint) {
        return false;
    }
    best_age_steps >= SUCCESS_LATCH_STAGNATION_MIN_BEST_AGE_STEPS
}

pub fn stagnation_near_miss_latch_eligible(
    best: &BestObservedState,
    strict: StrictTolerances,
    stagnation_ready: bool,
    hint: Option<TransportMotionHint>,
) -> (r: bool)
    ensures
        r == (stagnation_ready && says_moving(hint) is None && barely_misses(*best, strict, 8)),
{
    stagnation_ready && backend_hint_unavailable_or_unknown(hint)
        && best_stagnation_near_miss_eligible(
        best,
        strict,
        SUCCESS_LATCH_STAGNATION_NEAR_MISS_MARGIN_COUNT,
    )
}

pub fn timeout_latch_eligible(
    settling_steps: usize,
    error_is_small: bool,
    best_within_success_tol: bool,
    stagnation_ready: bool,
    near_miss_latch_eligible: bool,
    hint: Option<TransportMotionHint>,
) -> (r: bool)
    ensures
        r == (near_miss_latch_eligible || (best_within_success_tol && (stagnation_ready || (
        says_moving(hint) != Some(true) && (settling_steps >= 1 || error_is_small))))),
{
    if near_miss_latch_eligible {
        return true;
    }
    best_within_success_tol && (success_latch_ready(settling_steps, error_is_small, hint)
        || stagnation_ready)
}

fn gate_is_open(evidence: &LoopEvidence) -> (r: bool)
    ensures
        r == completion_ready(*evidence),
{
    match evidence.hint {
        Some(known) => capable_gate_allows_success(
            known.moving,
            known.move_age_ms,
            CompletionGateCapabilities::from_hint(known.moving, known.move_age_ms),
            evidence.min_age_ms,
            evidence.settling_steps,
            BACKEND_POSITION_STABLE_REQUIRED_STEPS,
            BACKEND_POSITION_STABLE_REQUIRED_STEPS_FALLBACK,
        ),
        None => evidence.settling_steps >= BACKEND_POSITION_STABLE_REQUIRED_STEPS,
    }
}

// ---------------------------------------------------------------- selecting a push

/// What bears on which way the camera is pushed.
#[derive(Debug, Clone, Copy, PartialEq, Eq, Structural)]
pub struct PushReading {
    /// The measured errors.
    pub pan_error: i128,
    pub tilt_error: i128,
    pub strict: StrictTolerances,
    /// There is none where not both axes are off.
    pub interleave: Option<InterleaveReading>,
    /// The push that the errors call for.
    pub direct: Option<PtzDirection>,
    /// The pushes that the two axes would need.
    pub pan_push: Option<PtzDirection>,
    pub tilt_push: Option<PtzDirection>,
    pub risky: RiskyPushes,
    /// The axis that is much further off than the other.
    pub lagging_axis: Option<ControlAxis>,
}

/// The push that an error calls for.
pub open spec fn push_towards(axis: ControlAxis, error: int) -> PtzDirection {
    match axis {
        ControlAxis::Pan => if error > 0 {
            PtzDirection::Right
        } else {
            PtzDirection::Left
        },
        ControlAxis::Tilt => if error > 0 {
            PtzDirection::Up
        } else {
            PtzDirection::Down
        },
    }
}

/// Where one axis is within the strict tolerance and the other is not, the push that the
/// other one calls for.
pub open spec fn focused_push(
    pan_error: int,
    tilt_error: int,
    strict: StrictTolerances,
) -> Option<PtzDirection> {
    let pan_within = -strict.pan_count <= pan_error <= strict.pan_count;
    let tilt_within = -strict.tilt_count <= tilt_error <= strict.tilt_count;
    if pan_within && !tilt_within {
        Some(push_towards(ControlAxis::Tilt, tilt_error))
    } else if tilt_within && !pan_within {
        Some(push_towards(ControlAxis::Pan, pan_error))
    } else {
        None
    }
}

pub open spec fn focus_of(reading: PushReading) -> Option<PtzDirection> {
    focused_push(reading.pan_error as int, reading.tilt_error as int, reading.strict)
}

pub fn strict_axis_focus_command(pan_error: i128, tilt_error: i128, strict: StrictTolerances) -> (r:
    Option<PtzDirection>)
    ensures
        r == focused_push(pan_error as int, tilt_error as int, strict),
{
    let pan_limit: i128 = strict.pan_count as i128;
    let tilt_limit: i128 = strict.tilt_count as i128;
    let pan_within = -pan_limit <= pan_error && pan_error <= pan_limit;
    let tilt_within = -tilt_limit <= tilt_error && tilt_error <= tilt_limit;
    if pan_within && !tilt_within {
        if tilt_error > 0 {
            Some(PtzDirection::Up)
        } else {
            Some(PtzDirection::Down)
        }
    } else if tilt_within && !pan_within {
        if pan_error > 0 {
            Some(PtzDirection::Right)
        } else {
            Some(PtzDirection::Left)
        }
    } else {
        None
    }
}

/// The push that is wanted: one on the one axis that is off, one on the axis whose turn it
/// is, or the one that the errors call for.
pub open spec fn wanted_push(state: LoopState, reading: PushReading) -> Option<PtzDirection> {
    if focus_of(reading) is Some {
        focus_of(reading)
    } else if is_secondary_turn(state.interleave, reading.interleave)
        && reading.interleave->0.secondary_push is Some {
        reading.interleave->0.secondary_push
    } else {
        reading.direct
    }
}

/// A push goes along another axis than the one that is much further off.
pub open spec fn is_off_axis(direction: PtzDirection, lagging_axis: Option<ControlAxis>) -> bool {
    match (lagging_axis, axis_of(direction)) {
        (Some(lagging), Some((axis, _))) => lagging != axis,
        _ => false,
    }
}

pub open spec fn push_of(state: LoopState, reading: PushReading) -> (
    EdgePushLockoutState,
    Option<PtzDirection>,
    bool,
) {
    guarded_push(
        state.edge_push_lockout,
        wanted_push(state, reading),
        reading.pan_push,
        reading.tilt_push,
        reading.risky,
    )
}

/// The state after a push was selected.
pub open spec fn selected(state: LoopState, reading: PushReading) -> LoopState {
    let (lockout, push, held_back) = push_of(state, reading);
    LoopState {
        interleave: if focus_of(reading) is Some {
            no_interleave()
        } else {
            interleave_after(state.interleave, reading.interleave)
        },
        edge_push_lockout: lockout,
        edge_lockout_blocks: if held_back {
            next(state.edge_lockout_blocks)
        } else {
            state.edge_lockout_blocks
        },
        failure_modes: match push {
            Some(direction) => FailureModeCounters {
                axis_swap_lag_hits: if is_off_axis(direction, reading.lagging_axis) {
                    next(state.failure_modes.axis_swap_lag_hits)
                } else {
                    state.failure_modes.axis_swap_lag_hits
                },
                edge_saturation_hits: if is_risky(reading.risky, direction) {
                    next(state.failure_modes.edge_saturation_hits)
                } else {
                    state.failure_modes.edge_saturation_hits
                },
                ..state.failure_modes
            },
            None => state.failure_modes,
        },
        ..state
    }
}

pub fn axis_swap_lag_detected(direction: PtzDirection, lagging_axis: Option<ControlAxis>) -> (r:
    bool)
    ensures
        r == is_off_axis(direction, lagging_axis),
{
    match (lagging_axis, control_axis_direction(direction)) {
        (Some(ControlAxis::Pan), Some((ControlAxis::Tilt, _))) => true,
        (Some(ControlAxis::Tilt), Some((ControlAxis::Pan, _))) => true,
        _ => false,
    }
}

impl LoopState {
    pub fn new() -> (r: Self)
        ensures
            r == first_state(),
    {
        LoopState {
            loop_updates: 0,
            stable_steps: 0,
            grace_steps: 0,
            best: None,
            best_age_steps: 0,
            failure_modes: FailureModeCounters::default(),
            edge_push_lockout: EdgePushLockoutState::default(),
            edge_lockout_blocks: 0,
            interleave: DualAxisInterleaveState::default(),
            stale_status_streak: 0,
            pan_reversals: 0,
            tilt_reversals: 0,
            mismatch_cooldown_steps: 0,
            no_progress_steps: 0,
            tie_break_pan: true,
        }
    }

    /// Notes a reading.
    pub fn observe(&mut self, reading: LoopReading)
        ensures
            *final(self) == observed(*old(self), reading),
    {
        update_reversal_counter(&mut self.pan_reversals, reading.pan_swing);
        update_reversal_counter(&mut self.tilt_reversals, reading.tilt_swing);
        if reading.model_mismatch {
            self.failure_modes.model_mismatch_hits =
            self.failure_modes.model_mismatch_hits.saturating_add(1);
            self.mismatch_cooldown_steps = MODEL_MISMATCH_RECOVERY_STEPS;
            self.interleave = DualAxisInterleaveState::default();
        }
        if stale_status_detected(
            reading.commanded,
            reading.stationary,
            &mut self.stale_status_streak,
        ) {
            self.failure_modes.stale_status_hits =
            self.failure_modes.stale_status_hits.saturating_add(1);
        }
        if consider_best(
            &mut self.best,
            reading.pan_count,
            reading.tilt_count,
            reading.target_pan_count,
            reading.target_tilt_count,
        ) {
            self.best_age_steps = 0;
        } else {
            self.best_age_steps = self.best_age_steps.saturating_add(1);
        }
        self.loop_updates = self.loop_updates.saturating_add(1);
        let seen = observe_position(
            reading.pan_count,
            reading.tilt_count,
            reading.target_pan_count,
            reading.target_tilt_count,
        );
        if at_target(&seen, reading.strict, reading.tolerance_count) {
            self.grace_steps = self.grace_steps.saturating_add(1);
        } else {
            self.grace_steps = 0;
        }
    }

    /// Judges whether the movement is over, after a reading was noted.
    pub fn judge(&mut self, evidence: LoopEvidence, current: PtzRawPosition) -> (r: LoopVerdict)
        ensures
            *final(self) == (LoopState {
                stable_steps: stable_steps_after(*old(self), evidence, current),
                ..*old(self)
            }),
            r == verdict_of(*old(self), evidence, current),
    {
        let seen = observe_position(
            current.pan_count,
            current.tilt_count,
            evidence.target_pan_count,
            evidence.target_tilt_count,
        );
        let within = at_target(&seen, evidence.strict, evidence.tolerance_count);
        let ready = gate_is_open(&evidence);
        let with_grace = ready || (within && self.grace_steps >= STRICT_COMPLETION_GRACE_STEPS
            && evidence.settling_steps >= 1);
        if within && self.loop_updates >= evidence.min_updates && with_grace {
            self.stable_steps = self.stable_steps.saturating_add(1);
        } else {
            self.stable_steps = 0;
        }
        let required: u64 = required_stable_steps_for_oscillation(
            self.pan_reversals,
            self.tilt_reversals,
        );
        if within && self.stable_steps >= required {
            return LoopVerdict::Reached(current);
        }
        let stagnant = success_latch_stagnation_ready(self.best_age_steps, evidence.hint);
        let best = match self.best {
            Some(known) => known,
            None => seen,
        };
        let good = at_target(&best, evidence.strict, evidence.tolerance_count);
        let near_miss = stagnation_near_miss_latch_eligible(
            &best,
            evidence.strict,
            stagnant,
            evidence.hint,
        ) && within_tolerance(&best, evidence.tolerance_count);
        let mut position = current;
        position.pan_count = best.pan_count;
        position.tilt_count = best.tilt_count;
        if self.best.is_some() && ((stagnant && good) || near_miss) {
            return LoopVerdict::Latched(position);
        }
        if !evidence.deadline_passed {
            return LoopVerdict::Continue;
        }
        let eligible = timeout_latch_eligible(
            evidence.settling_steps,
            evidence.error_is_small,
            good,
            stagnant,
            near_miss,
            evidence.hint,
        );
        if within && with_grace {
            return LoopVerdict::Reached(current);
        }
        if eligible {
            return LoopVerdict::Latched(position);
        }
        LoopVerdict::TimedOut { completion_ready: ready, latch_eligible: eligible }
    }

    /// Notes whether the two errors, where both are off and small, became smaller.
    pub fn note_close_progress(&mut self, both_close: bool, progressed: bool)
        ensures
            *final(self) == (LoopState {
                no_progress_steps: if both_close && !progressed {
                    next(old(self).no_progress_steps)
                } else {
                    0
                },
                ..*old(self)
            }),
    {
        if both_close && !progressed {
            self.no_progress_steps = self.no_progress_steps.saturating_add(1);
        } else {
            self.no_progress_steps = 0;
        }
    }

    /// Notes a movement by a distance: where it went along both axes, ties are broken the
    /// other way next time.
    pub fn note_relative_move(&mut self, pan_delta_count: i64, tilt_delta_count: i64)
        ensures
            *final(self) == (LoopState {
                tie_break_pan: if pan_delta_count != 0 && tilt_delta_count != 0 {
                    !old(self).tie_break_pan
                } else {
                    old(self).tie_break_pan
                },
                ..*old(self)
            }),
    {
        if pan_delta_count != 0 && tilt_delta_count != 0 {
            self.tie_break_pan = !self.tie_break_pan;
        }
    }

    /// Selects the push that is made next, if any.
    pub fn select_push(&mut self, reading: PushReading) -> (r: Option<PtzDirection>)
        ensures
            *final(self) == selected(*old(self), reading),
            r == push_of(*old(self), reading).1,
    {
        let focus = strict_axis_focus_command(reading.pan_error, reading.tilt_error, reading.strict);
        let wanted = match focus {
            Some(direction) => {
                self.interleave = DualAxisInterleaveState::default();
                Some(direction)
            },
            None => match forced_secondary_axis_command(&mut self.interleave, reading.interleave) {
                Some(direction) => Some(direction),
                None => reading.direct,
            },
        };
        let (push, held_back) = select_command_with_edge_push_lockout(
            &mut self.edge_push_lockout,
            wanted,
            reading.pan_push,
            reading.tilt_push,
            reading.risky,
        );
        if held_back {
            self.edge_lockout_blocks = self.edge_lockout_blocks.saturating_add(1);
        }
        if let Some(direction) = push {
            if axis_swap_lag_detected(direction, reading.lagging_axis) {
                self.failure_modes.axis_swap_lag_hits =
                self.failure_modes.axis_swap_lag_hits.saturating_add(1);
            }
            if reading.risky.risky_push(direction) {
                self.failure_modes.edge_saturation_hits =
                self.failure_modes.edge_saturation_hits.saturating_add(1);
            }
        }
        push
    }

    /// Notes that a push was made: where the two errors did not become smaller for some
    /// steps, ties are broken the other way next time.
    pub fn note_push(&mut self, both_close: bool)
        ensures
            *final(self) == if both_close && old(self).no_progress_steps
                >= DUAL_AXIS_CLOSE_NO_PROGRESS_TOGGLE_STEPS {
                LoopState {
                    tie_break_pan: !old(self).tie_break_pan,
                    no_progress_steps: 0,
                    ..*old(self)
                }
            } else {
                *old(self)
            },
    {
        if both_close && self.no_progress_steps >= DUAL_AXIS_CLOSE_NO_PROGRESS_TOGGLE_STEPS {
            self.tie_break_pan = !self.tie_break_pan;
            self.no_progress_steps = 0;
        }
    }

    /// Ends a step: the time in which the measured errors are preferred gets shorter.
    pub fn end_step(&mut self)
        ensures
            *final(self) == (LoopState {
                mismatch_cooldown_steps: previous(old(self).mismatch_cooldown_steps),
                ..*old(self)
            }),
    {
        self.mismatch_cooldown_steps = self.mismatch_cooldown_steps.saturating_sub(1);
    }
}

// ---------------------------------------------------------------- laws

/// After a reading there is a best position, it is no further off than the one before, and
/// no further off than the reading itself.
pub proof fn law_best_never_gets_worse(state: LoopState, reading: LoopReading)
    ensures
        ({
            let seen = observed_at(
                reading.pan_count,
                reading.tilt_count,
                reading.target_pan_count,
                reading.target_tilt_count,
            );
            observed(state, reading).best matches Some(best) && worst_error(best) <= worst_error(
                seen,
            ) && (state.best matches Some(before) ==> worst_error(best) <= worst_error(before) && (
            worst_error(best) == worst_error(before) ==> total_error(best) <= total_error(before)))
        }),
{
}

/// Success is reported for a reading only where it is within the tolerances, and for
/// the best position only while the camera does not say that it moves.
pub proof fn law_success_needs_a_reason(
    state: LoopState,
    evidence: LoopEvidence,
    current: PtzRawPosition,
)
    ensures
        verdict_of(state, evidence, current) is Reached ==> within_strict(evidence, current),
        verdict_of(state, evidence, current) is Latched ==> says_moving(evidence.hint) != Some(true)
            && (best_within(state, evidence, current) || barely_misses(
            best_seen(state, evidence, current),
            evidence.strict,
            8,
        )),
        verdict_of(state, evidence, current) is TimedOut ==> evidence.deadline_passed,
        evidence.deadline_passed ==> !(verdict_of(state, evidence, current) is Continue),
{
}

/// Before its time is over, the target counts as reached only after a good reading, and
/// after two of them in a row where the camera does not swing about it.
pub proof fn law_reaching_takes_good_readings(
    state: LoopState,
    evidence: LoopEvidence,
    current: PtzRawPosition,
)
    ensures
        verdict_of(state, evidence, current) is Reached && !evidence.deadline_passed
            ==> stable_steps_after(state, evidence, current) >= 1 && (state.pan_reversals
            + state.tilt_reversals < 6 ==> stable_steps_after(state, evidence, current) >= 2
            && state.stable_steps >= 1),
{
}

/// A reading outside the strict tolerance sets the good readings back to none.
pub proof fn law_a_bad_reading_starts_over(
    state: LoopState,
    evidence: LoopEvidence,
    current: PtzRawPosition,
)
    requires
        !within_strict(evidence, current),
    ensures
        stable_steps_after(state, evidence, current) == 0,
{
}

/// What is reported has the counts of the reading or of the best position, and everything
/// else as it was read.
pub proof fn law_reported_position(
    state: LoopState,
    evidence: LoopEvidence,
    current: PtzRawPosition,
)
    ensures
        verdict_of(state, evidence, current) matches LoopVerdict::Reached(position) ==> position
            == current,
        verdict_of(state, evidence, current) matches LoopVerdict::Latched(position) ==> position
            == best_position(state, current) && position.channel == current.channel
            && position.zoom_count == current.zoom_count && position.focus_count
            == current.focus_count,
{
}

/// The best position of a state is as far from the target as it says.
pub open spec fn best_is_measured(state: LoopState, target: (i64, i64)) -> bool {
    state.best matches Some(best) ==> best == observed_at(
        best.pan_count,
        best.tilt_count,
        target.0,
        target.1,
    )
}

/// Readings keep the errors of the best position true.
pub proof fn law_best_stays_measured(state: LoopState, reading: LoopReading)
    requires
        best_is_measured(state, (reading.target_pan_count, reading.target_tilt_count)),
    ensures
        best_is_measured(first_state(), (reading.target_pan_count, reading.target_tilt_count)),
        best_is_measured(
            observed(state, reading),
            (reading.target_pan_count, reading.target_tilt_count),
        ),
{
}

/// Whatever position success is reported for, it is within the tolerance that was asked for,
/// on both axes. It is also within the strict tolerance, except by eight counts at most on
/// one axis.
pub proof fn law_success_is_near_the_target(
    state: LoopState,
    evidence: LoopEvidence,
    current: PtzRawPosition,
    position: PtzRawPosition,
)
    requires
        best_is_measured(state, (evidence.target_pan_count, evidence.target_tilt_count)),
        verdict_of(state, evidence, current) == LoopVerdict::Reached(position) || verdict_of(
            state,
            evidence,
            current,
        ) == LoopVerdict::Latched(position),
    ensures
        ({
            let pan = distance(evidence.target_pan_count as int, position.pan_count as int);
            let tilt = distance(evidence.target_tilt_count as int, position.tilt_count as int);
            &&& pan <= evidence.tolerance_count
            &&& tilt <= evidence.tolerance_count
            &&& pan <= evidence.strict.pan_count + 8
            &&& tilt <= evidence.strict.tilt_count + 8
            &&& pan <= evidence.strict.pan_count || tilt <= evidence.strict.tilt_count
        }),
{
}

/// The lockout of a direction after a number of risky pushes in a row.
pub open spec fn after_risky_pushes(slot: EdgePushDirectionLockout, n: nat) -> EdgePushDirectionLockout
    decreases n,
{
    if n == 0 {
        slot
    } else {
        slot_after(after_risky_pushes(slot, (n - 1) as nat), true)
    }
}

/// Of risky pushes in a row from a free direction, the first is let through, the next three
/// are held back, and after those the direction is free again.
pub proof fn law_lockout_is_released(slot: EdgePushDirectionLockout)
    requires
        slot.risky_streak == 0,
        slot.lockout_steps == 0,
    ensures
        !holds_back(slot, true),
        holds_back(after_risky_pushes(slot, 1), true),
        holds_back(after_risky_pushes(slot, 2), true),
        holds_back(after_risky_pushes(slot, 3), true),
        after_risky_pushes(slot, 4) == slot,
{
    reveal_with_fuel(after_risky_pushes, 5);
}

/// A push that is not risky is never held back, and frees its direction.
pub proof fn law_safe_push_frees_its_direction(slot: EdgePushDirectionLockout)
    ensures
        !holds_back(slot, false),
        !holds_back(slot_after(slot, false), true),
{
}

/// A push in one direction leaves the other directions as they are.
pub proof fn law_directions_are_locked_apart(
    state: LoopState,
    reading: PushReading,
    other: PtzDirection,
)
    requires
        wanted_push(state, reading) != Some(other),
        reading.pan_push != Some(other),
        reading.tilt_push != Some(other),
    ensures
        slot_of(selected(state, reading).edge_push_lockout, other) == slot_of(
            state.edge_push_lockout,
            other,
        ),
{
}

/// Where one axis is within the strict tolerance and the other is not, the camera is pushed
/// along the other, unless that push is held back at an end of the axis.
pub proof fn law_the_remaining_axis_is_pushed(state: LoopState, reading: PushReading)
    requires
        focus_of(reading) is Some,
        !is_risky(reading.risky, focus_of(reading)->0),
    ensures
        push_of(state, reading).1 == focus_of(reading),
        selected(state, reading).interleave == no_interleave(),
{
}

/// The state of the turns after a number of steps with the same reading.
pub open spec fn interleave_run(
    state: DualAxisInterleaveState,
    reading: InterleaveReading,
    steps: nat,
) -> DualAxisInterleaveState
    decreases steps,
{
    if steps == 0 {
        state
    } else {
        interleave_after(interleave_run(state, reading, (steps - 1) as nat), Some(reading))
    }
}

/// While both axes stay off, the one that is less far off gets its turn after as many steps
/// as the interval says, and not before.
pub proof fn law_the_other_axis_gets_its_turn(reading: InterleaveReading, steps: nat)
    requires
        !reading.secondary_within,
        steps <= reading.interval,
    ensures
        interleave_run(no_interleave(), reading, steps).dominant_streak == steps,
        is_secondary_turn(interleave_run(no_interleave(), reading, steps), Some(reading)) <==> steps
            == reading.interval,
    decreases steps,
{
    if steps > 0 {
        law_the_other_axis_gets_its_turn(reading, (steps - 1) as nat);
    }
}

/// A mismatch is followed by three steps in which the measured errors are preferred.
pub proof fn law_mismatch_cools_down(state: LoopState, reading: LoopReading)
    requires
        reading.model_mismatch,
    ensures
        observed(state, reading).mismatch_cooldown_steps == 3,
        observed(state, reading).interleave == no_interleave(),
        previous(previous(previous(observed(state, reading).mismatch_cooldown_steps))) == 0,
{
}

} // verus!
