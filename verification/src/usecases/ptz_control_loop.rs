//! The decisions of the loop that moves the camera to a position: what each reading of the
//! position means, when the movement is over, and which way the camera is pushed next.
//!
//! The loop filters and weighs the readings in floating point. What comes of that is handed
//! to the functions of this module as yes or no, and as counts.
use crate::model::PtzDirection;
use vstd::prelude::*;

verus! {

pub const REQUIRED_STABLE_STEPS: u64 = 2;

pub const OSCILLATION_STABLE_STEP_REDUCTION_REVERSAL_SUM: u64 = 6;

pub const OSCILLATION_DAMPING_REVERSAL_SUM: u64 = 3;

pub const OSCILLATION_DAMPING_PULSE_MS_MAX: u64 = 20;

pub const STRICT_COMPLETION_GRACE_STEPS: u64 = 3;

pub const BACKEND_POSITION_STABLE_REQUIRED_STEPS: usize = 2;

pub const BACKEND_POSITION_STABLE_REQUIRED_STEPS_FALLBACK: usize = 4;

pub const SUCCESS_LATCH_STAGNATION_MIN_BEST_AGE_STEPS: u64 = 6;

pub const SUCCESS_LATCH_STAGNATION_NEAR_MISS_MARGIN_COUNT: u64 = 8;

pub const SUCCESS_LATCH_MIN_SETTLING_STEPS: usize = 1;

pub const MODEL_MISMATCH_RECOVERY_STEPS: u64 = 3;

pub const FAILURE_DIAG_STALE_STREAK_MIN: u64 = 2;

pub const EDGE_PUSH_LOCKOUT_TRIGGER_STREAK: u64 = 2;

pub const EDGE_PUSH_LOCKOUT_HOLD_STEPS: u64 = 2;

pub const DUAL_AXIS_CLOSE_NO_PROGRESS_TOGGLE_STEPS: u64 = 3;

pub const PULSE_LUT_MIN_MS: u64 = 10;

pub const NEAR_TARGET_SPEED1_MAX_PULSE_MS: u64 = 45;

pub const TILT_EDGE_CONTROL_MAX_PULSE_MS: u64 = 20;

pub const REVERSAL_MICRO_MAX_PULSE_MS: u64 = 10;

pub const ACTIVE_COMMAND_MIN_PULSE_MS: u64 = 8;

#[derive(Debug, Clone, Copy, PartialEq, Eq, Structural)]
pub enum ControlAxis {
    Pan,
    Tilt,
}

#[derive(Debug, Clone, Copy, PartialEq, Eq, Structural)]
pub enum AxisDirection {
    Positive,
    Negative,
}

/// One more, up to the largest number that fits.
pub open spec fn next(n: u64) -> u64 {
    if n < u64::MAX {
        (n + 1) as u64
    } else {
        u64::MAX
    }
}

/// One less, down to zero.
pub open spec fn previous(n: u64) -> u64 {
    if n > 0 {
        (n - 1) as u64
    } else {
        0
    }
}

// ---------------------------------------------------------------- directions

/// The axis of a direction and the way it goes on it. A diagonal has none.
pub open spec fn axis_of(direction: PtzDirection) -> Option<(ControlAxis, AxisDirection)> {
    match direction {
        PtzDirection::Left => Some((ControlAxis::Pan, AxisDirection::Negative)),
        PtzDirection::Right => Some((ControlAxis::Pan, AxisDirection::Positive)),
        PtzDirection::Up => Some((ControlAxis::Tilt, AxisDirection::Positive)),
        PtzDirection::Down => Some((ControlAxis::Tilt, AxisDirection::Negative)),
        _ => None,
    }
}

pub open spec fn is_on(direction: PtzDirection, axis: ControlAxis) -> bool {
    axis_of(direction) matches Some((on, _)) && on == axis
}

pub fn control_axis_direction(direction: PtzDirection) -> (r: Option<(ControlAxis, AxisDirection)>)
    ensures
        r == axis_of(direction),
{
    match direction {
        PtzDirection::Left => Some((ControlAxis::Pan, AxisDirection::Negative)),
        PtzDirection::Right => Some((ControlAxis::Pan, AxisDirection::Positive)),
        PtzDirection::Up => Some((ControlAxis::Tilt, AxisDirection::Positive)),
        PtzDirection::Down => Some((ControlAxis::Tilt, AxisDirection::Negative)),
        _ => None,
    }
}

// ---------------------------------------------------------------- the best position

/// The position nearest to the target so far.
#[derive(Debug, Clone, Copy, PartialEq, Eq, Structural)]
pub struct BestObservedState {
    pub pan_count: i64,
    pub tilt_count: i64,
    pub pan_abs_error: u64,
    pub tilt_abs_error: u64,
}

pub open spec fn distance(a: int, b: int) -> int {
    if a >= b {
        a - b
    } else {
        b - a
    }
}

/// The larger of the two errors.
pub open spec fn worst_error(state: BestObservedState) -> int {
    if state.pan_abs_error >= state.tilt_abs_error {
        state.pan_abs_error as int
    } else {
        state.tilt_abs_error as int
    }
}

/// The sum of the two errors.
pub open spec fn total_error(state: BestObservedState) -> int {
    state.pan_abs_error + state.tilt_abs_error
}

/// One position is nearer than another: its larger error is smaller, or that is equal and
/// its sum of errors is smaller.
pub open spec fn is_nearer(a: BestObservedState, b: BestObservedState) -> bool {
    worst_error(a) < worst_error(b) || (worst_error(a) == worst_error(b) && total_error(a)
        < total_error(b))
}

pub open spec fn observed_at(
    pan_count: i64,
    tilt_count: i64,
    target_pan_count: i64,
    target_tilt_count: i64,
) -> BestObservedState {
    BestObservedState {
        pan_count,
        tilt_count,
        pan_abs_error: distance(target_pan_count as int, pan_count as int) as u64,
        tilt_abs_error: distance(target_tilt_count as int, tilt_count as int) as u64,
    }
}

/// The best position after another one was seen.
pub open spec fn better_of(
    best: Option<BestObservedState>,
    candidate: BestObservedState,
) -> BestObservedState {
    match best {
        Some(known) => if is_nearer(candidate, known) {
            candidate
        } else {
            known
        },
        None => candidate,
    }
}

/// The candidate takes the place of the best position.
pub open spec fn improves(best: Option<BestObservedState>, candidate: BestObservedState) -> bool {
    match best {
        Some(known) => is_nearer(candidate, known),
        None => true,
    }
}

fn distance_of(a: i64, b: i64) -> (r: u64)
    ensures
        r == distance(a as int, b as int),
{
    if a >= b {
        (a as i128 - b as i128) as u64
    } else {
        (b as i128 - a as i128) as u64
    }
}

fn nearer(a: &BestObservedState, b: &BestObservedState) -> (r: bool)
    ensures
        r == is_nearer(*a, *b),
{
    let a_worst: u64 = if a.pan_abs_error >= a.tilt_abs_error {
        a.pan_abs_error
    } else {
        a.tilt_abs_error
    };
    let b_worst: u64 = if b.pan_abs_error >= b.tilt_abs_error {
        b.pan_abs_error
    } else {
        b.tilt_abs_error
    };
    let a_total: u128 = a.pan_abs_error as u128 + a.tilt_abs_error as u128;
    let b_total: u128 = b.pan_abs_error as u128 + b.tilt_abs_error as u128;
    a_worst < b_worst || (a_worst == b_worst && a_total < b_total)
}

/// A position and its distance from the target.
pub fn observe_position(
    pan_count: i64,
    tilt_count: i64,
    target_pan_count: i64,
    target_tilt_count: i64,
) -> (r: BestObservedState)
    ensures
        r == observed_at(pan_count, tilt_count, target_pan_count, target_tilt_count),
{
    BestObservedState {
        pan_count,
        tilt_count,
        pan_abs_error: distance_of(target_pan_count, pan_count),
        tilt_abs_error: distance_of(target_tilt_count, tilt_count),
    }
}

/// Notes a position, and says whether it is the best so far.
pub fn consider_best(
    best: &mut Option<BestObservedState>,
    pan_count: i64,
    tilt_count: i64,
    target_pan_count: i64,
    target_tilt_count: i64,
) -> (r: bool)
    ensures
        ({
            let candidate = observed_at(
                pan_count,
                tilt_count,
                target_pan_count,
                target_tilt_count,
            );
            *final(best) == Some(better_of(*old(best), candidate)) && r == improves(
                *old(best),
                candidate,
            )
        }),
{
    let candidate = observe_position(pan_count, tilt_count, target_pan_count, target_tilt_count);
    let update = match best {
        Some(known) => nearer(&candidate, known),
        None => true,
    };
    if update {
        *best = Some(candidate);
    }
    update
}

// ---------------------------------------------------------------- edges

/// How often the camera was pushed against an end of its axis, and for how many steps it
/// is not pushed that way.
#[derive(Debug, Clone, Copy, PartialEq, Eq, Structural)]
pub struct EdgePushDirectionLockout {
    pub risky_streak: u64,
    pub lockout_steps: u64,
}

#[derive(Debug, Clone, Copy, PartialEq, Eq, Structural)]
pub struct EdgePushLockoutState {
    pub left: EdgePushDirectionLockout,
    pub right: EdgePushDirectionLockout,
    pub up: EdgePushDirectionLockout,
    pub down: EdgePushDirectionLockout,
}

pub open spec fn free_direction() -> EdgePushDirectionLockout {
    EdgePushDirectionLockout { risky_streak: 0, lockout_steps: 0 }
}

pub open spec fn free_lockout() -> EdgePushLockoutState {
    EdgePushLockoutState {
        left: free_direction(),
        right: free_direction(),
        up: free_direction(),
        down: free_direction(),
    }
}

/// A push is held back while the direction is locked, and at the push that locks it.
pub open spec fn holds_back(slot: EdgePushDirectionLockout, risky_push: bool) -> bool {
    risky_push && (slot.lockout_steps > 0 || next(slot.risky_streak)
        >= EDGE_PUSH_LOCKOUT_TRIGGER_STREAK)
}

/// A direction after a push in it was asked for.
pub open spec fn slot_after(
    slot: EdgePushDirectionLockout,
    risky_push: bool,
) -> EdgePushDirectionLockout {
    if !risky_push {
        free_direction()
    } else if slot.lockout_steps > 0 {
        EdgePushDirectionLockout { lockout_steps: previous(slot.lockout_steps), ..slot }
    } else if next(slot.risky_streak) < EDGE_PUSH_LOCKOUT_TRIGGER_STREAK {
        EdgePushDirectionLockout { risky_streak: next(slot.risky_streak), ..slot }
    } else {
        EdgePushDirectionLockout { risky_streak: 0, lockout_steps: EDGE_PUSH_LOCKOUT_HOLD_STEPS }
    }
}

/// The state of a direction. A diagonal has none.
pub open spec fn slot_of(state: EdgePushLockoutState, direction: PtzDirection) -> Option<
    EdgePushDirectionLockout,
> {
    match direction {
        PtzDirection::Left => Some(state.left),
        PtzDirection::Right => Some(state.right),
        PtzDirection::Up => Some(state.up),
        PtzDirection::Down => Some(state.down),
        _ => None,
    }
}

/// A push in a direction is held back. A diagonal never is.
pub open spec fn blocks(
    state: EdgePushLockoutState,
    direction: PtzDirection,
    risky_push: bool,
) -> bool {
    slot_of(state, direction) matches Some(slot) && holds_back(slot, risky_push)
}

/// The state after a push in a direction was asked for: no other direction changes.
pub open spec fn lockout_after(
    state: EdgePushLockoutState,
    direction: PtzDirection,
    risky_push: bool,
) -> EdgePushLockoutState {
    match direction {
        PtzDirection::Left => EdgePushLockoutState {
            left: slot_after(state.left, risky_push),
            ..state
        },
        PtzDirection::Right => EdgePushLockoutState {
            right: slot_after(state.right, risky_push),
            ..state
        },
        PtzDirection::Up => EdgePushLockoutState { up: slot_after(state.up, risky_push), ..state },
        PtzDirection::Down => EdgePushLockoutState {
            down: slot_after(state.down, risky_push),
            ..state
        },
        _ => state,
    }
}

impl EdgePushDirectionLockout {
    fn ask(&mut self, risky_push: bool) -> (r: bool)
        ensures
            r == holds_back(*old(self), risky_push),
            *final(self) == slot_after(*old(self), risky_push),
    {
        if !risky_push {
            self.risky_streak = 0;
            self.lockout_steps = 0;
            return false;
        }
        if self.lockout_steps > 0 {
            self.lockout_steps = self.lockout_steps - 1;
            return true;
        }
        self.risky_streak = self.risky_streak.saturating_add(1);
        if self.risky_streak < EDGE_PUSH_LOCKOUT_TRIGGER_STREAK {
            return false;
        }
        self.risky_streak = 0;
        self.lockout_steps = EDGE_PUSH_LOCKOUT_HOLD_STEPS;
        true
    }
}

impl Default for EdgePushLockoutState {
    fn default() -> (r: Self)
        ensures
            r == free_lockout(),
    {
        let free = EdgePushDirectionLockout { risky_streak: 0, lockout_steps: 0 };
        EdgePushLockoutState { left: free, right: free, up: free, down: free }
    }
}

impl EdgePushLockoutState {
    /// Asks for a push in a direction, and says whether it is held back.
    pub fn should_block_direction(&mut self, direction: PtzDirection, risky_push: bool) -> (r: bool)
        ensures
            r == blocks(*old(self), direction, risky_push),
            *final(self) == lockout_after(*old(self), direction, risky_push),
    {
        match direction {
            PtzDirection::Left => self.left.ask(risky_push),
            PtzDirection::Right => self.right.ask(risky_push),
            PtzDirection::Up => self.up.ask(risky_push),
            PtzDirection::Down => self.down.ask(risky_push),
            _ => false,
        }
    }
}

/// The directions in which a push would go against an end that the camera stands at.
#[derive(Debug, Clone, Copy, PartialEq, Eq, Structural)]
pub struct RiskyPushes {
    pub left: bool,
    pub right: bool,
    pub up: bool,
    pub down: bool,
}

pub open spec fn is_risky(risky: RiskyPushes, direction: PtzDirection) -> bool {
    match direction {
        PtzDirection::Left => risky.left,
        PtzDirection::Right => risky.right,
        PtzDirection::Up => risky.up,
        PtzDirection::Down => risky.down,
        _ => false,
    }
}

impl RiskyPushes {
    pub fn risky_push(&self, direction: PtzDirection) -> (r: bool)
        ensures
            r == is_risky(*self, direction),
    {
        match direction {
            PtzDirection::Left => self.left,
            PtzDirection::Right => self.right,
            PtzDirection::Up => self.up,
            PtzDirection::Down => self.down,
            _ => false,
        }
    }
}

/// The push on the other axis that takes the place of one that is held back.
pub open spec fn fallback_push(
    blocked: PtzDirection,
    pan_push: Option<PtzDirection>,
    tilt_push: Option<PtzDirection>,
) -> Option<PtzDirection> {
    match axis_of(blocked) {
        Some((ControlAxis::Pan, _)) => tilt_push,
        Some((ControlAxis::Tilt, _)) => pan_push,
        None => None,
    }
}

pub fn fallback_command_for_edge_lockout(
    blocked_direction: PtzDirection,
    pan_push: Option<PtzDirection>,
    tilt_push: Option<PtzDirection>,
) -> (r: Option<PtzDirection>)
    ensures
        r == fallback_push(blocked_direction, pan_push, tilt_push),
{
    match control_axis_direction(blocked_direction) {
        Some((ControlAxis::Pan, _)) => tilt_push,
        Some((ControlAxis::Tilt, _)) => pan_push,
        None => None,
    }
}

/// What comes of a push: the state, the push that is made, and whether one was held back.
pub open spec fn guarded_push(
    state: EdgePushLockoutState,
    selected: Option<PtzDirection>,
    pan_push: Option<PtzDirection>,
    tilt_push: Option<PtzDirection>,
    risky: RiskyPushes,
) -> (EdgePushLockoutState, Option<PtzDirection>, bool) {
    match selected {
        None => (state, None, false),
        Some(direction) => {
            let asked = lockout_after(state, direction, is_risky(risky, direction));
            if !blocks(state, direction, is_risky(risky, direction)) {
                (asked, Some(direction), false)
            } else {
                match fallback_push(direction, pan_push, tilt_push) {
                    None => (asked, None, true),
                    Some(other) => {
                        let again = lockout_after(asked, other, is_risky(risky, other));
                        if blocks(asked, other, is_risky(risky, other)) {
                            (again, None, true)
                        } else {
                            (again, Some(other), true)
                        }
                    },
                }
            }
        },
    }
}

/// A push, or the one on the other axis where it is held back, and whether one was. The
/// pushes that the two axes would need are given.
pub fn select_command_with_edge_push_lockout(
    state: &mut EdgePushLockoutState,
    selected: Option<PtzDirection>,
    pan_push: Option<PtzDirection>,
    tilt_push: Option<PtzDirection>,
    risky: RiskyPushes,
) -> (r: (Option<PtzDirection>, bool))
    ensures
        (*final(state), r.0, r.1) == guarded_push(
            *old(state),
            selected,
            pan_push,
            tilt_push,
            risky,
        ),
{
    let direction = match selected {
        Some(direction) => direction,
        None => {
            return (None, false);
        },
    };
    if !state.should_block_direction(direction, risky.risky_push(direction)) {
        return (Some(direction), false);
    }
    match fallback_command_for_edge_lockout(direction, pan_push, tilt_push) {
        None => (None, true),
        Some(other) => {
            if state.should_block_direction(other, risky.risky_push(other)) {
                (None, true)
            } else {
                (Some(other), true)
            }
        },
    }
}

// ---------------------------------------------------------------- two axes in turn

/// For how many steps the axis that is further off was moved alone.
#[derive(Debug, Clone, Copy, PartialEq, Eq, Structural)]
pub struct DualAxisInterleaveState {
    pub dominant_axis: Option<ControlAxis>,
    pub dominant_streak: u64,
}

pub open spec fn no_interleave() -> DualAxisInterleaveState {
    DualAxisInterleaveState { dominant_axis: None, dominant_streak: 0 }
}

impl Default for DualAxisInterleaveState {
    fn default() -> (r: Self)
        ensures
            r == no_interleave(),
    {
        DualAxisInterleaveState { dominant_axis: None, dominant_streak: 0 }
    }
}

/// Both axes are off: which is further off, whether the other is near enough to be left
/// alone, after how many steps it gets its turn, and the push that it needs.
#[derive(Debug, Clone, Copy, PartialEq, Eq, Structural)]
pub struct InterleaveReading {
    pub dominant: ControlAxis,
    pub secondary_within: bool,
    pub interval: u64,
    pub secondary_push: Option<PtzDirection>,
}

/// The streak of the axis that is further off, which starts again where that axis changes.
pub open spec fn streak_of(state: DualAxisInterleaveState, dominant: ControlAxis) -> u64 {
    if state.dominant_axis == Some(dominant) {
        state.dominant_streak
    } else {
        0
    }
}

/// It is the turn of the axis that is less far off.
pub open spec fn is_secondary_turn(
    state: DualAxisInterleaveState,
    reading: Option<InterleaveReading>,
) -> bool {
    reading matches Some(known) && !known.secondary_within && streak_of(state, known.dominant)
        >= known.interval
}

pub open spec fn interleave_after(
    state: DualAxisInterleaveState,
    reading: Option<InterleaveReading>,
) -> DualAxisInterleaveState {
    match reading {
        None => no_interleave(),
        Some(known) => DualAxisInterleaveState {
            dominant_axis: Some(known.dominant),
            dominant_streak: if known.secondary_within || is_secondary_turn(state, reading) {
                0
            } else {
                next(streak_of(state, known.dominant))
            },
        },
    }
}

/// The push on the axis that is less far off, where it is its turn. There is no reading
/// where not both axes are off.
pub fn forced_secondary_axis_command(
    state: &mut DualAxisInterleaveState,
    reading: Option<InterleaveReading>,
) -> (r: Option<PtzDirection>)
    ensures
        *final(state) == interleave_after(*old(state), reading),
        r == if is_secondary_turn(*old(state), reading) {
            reading->0.secondary_push
        } else {
            None
        },
{
    let known = match reading {
        Some(known) => known,
        None => {
            state.dominant_axis = None;
            state.dominant_streak = 0;
            return None;
        },
    };
    if known.secondary_within {
        state.dominant_axis = Some(known.dominant);
        state.dominant_streak = 0;
        return None;
    }
    let same = match (state.dominant_axis, known.dominant) {
        (Some(ControlAxis::Pan), ControlAxis::Pan) => true,
        (Some(ControlAxis::Tilt), ControlAxis::Tilt) => true,
        _ => false,
    };
    if !same {
        state.dominant_axis = Some(known.dominant);
        state.dominant_streak = 0;
    }
    if state.dominant_streak < known.interval {
        state.dominant_streak = state.dominant_streak.saturating_add(1);
        return None;
    }
    state.dominant_streak = 0;
    known.secondary_push
}

// ---------------------------------------------------------------- swings and stale readings

/// How the error of an axis changed between two readings.
#[derive(Debug, Clone, Copy, PartialEq, Eq, Structural)]
pub enum Swing {
    /// It changed its sign near the target.
    Reversed,
    /// It is far from the target.
    Far,
    /// Neither.
    Calm,
}

/// The number of reversals after another reading.
pub open spec fn reversals_after(reversals: u64, swing: Swing) -> u64 {
    match swing {
        Swing::Reversed => next(reversals),
        Swing::Far => 0,
        Swing::Calm => previous(reversals),
    }
}

pub fn update_reversal_counter(counter: &mut u64, swing: Swing)
    ensures
        *final(counter) == reversals_after(*old(counter), swing),
{
    match swing {
        Swing::Reversed => {
            *counter = counter.saturating_add(1);
        },
        Swing::Far => {
            *counter = 0;
        },
        Swing::Calm => {
            *counter = counter.saturating_sub(1);
        },
    }
}

pub open spec fn reversal_sum(pan_reversals: u64, tilt_reversals: u64) -> int {
    pan_reversals + tilt_reversals
}

/// How many good readings in a row a movement takes: fewer where it swings about the target.
pub open spec fn required_steps(pan_reversals: u64, tilt_reversals: u64) -> u64 {
    if reversal_sum(pan_reversals, tilt_reversals)
        >= OSCILLATION_STABLE_STEP_REDUCTION_REVERSAL_SUM {
        1
    } else {
        REQUIRED_STABLE_STEPS
    }
}

pub fn required_stable_steps_for_oscillation(pan_reversals: u64, tilt_reversals: u64) -> (r: u64)
    ensures
        r == required_steps(pan_reversals, tilt_reversals),
{
    if pan_reversals.saturating_add(tilt_reversals)
        >= OSCILLATION_STABLE_STEP_REDUCTION_REVERSAL_SUM {
        1
    } else {
        REQUIRED_STABLE_STEPS
    }
}

/// The number of readings in a row that did not change though the camera was moved.
pub open spec fn stale_streak_after(streak: u64, commanded: bool, stationary: bool) -> u64 {
    if commanded && stationary {
        next(streak)
    } else {
        0
    }
}

/// Notes a reading, and says whether the readings are stale: they did not change, twice in
/// a row, though the camera was moved.
pub fn stale_status_detected(commanded: bool, stationary: bool, streak: &mut u64) -> (r: bool)
    ensures
        *final(streak) == stale_streak_after(*old(streak), commanded, stationary),
        r == (*final(streak) >= FAILURE_DIAG_STALE_STREAK_MIN),
{
    if !commanded || !stationary {
        *streak = 0;
        return false;
    }
    *streak = streak.saturating_add(1);
    *streak >= FAILURE_DIAG_STALE_STREAK_MIN
}

// ---------------------------------------------------------------- learning from pulses

/// A movement whose effect the next reading shows.
#[derive(Debug, Clone, Copy, PartialEq, Eq, Structural)]
pub struct PendingPulseObservation {
    pub axis: ControlAxis,
    pub direction: AxisDirection,
    pub pulse_ms: u64,
    pub edge_band: bool,
}

/// The effect of a push is learned from where the push is one of the learning phase, long
/// enough, and not made right after a reversal on its axis.
pub open spec fn may_learn(
    direction: PtzDirection,
    candidate: bool,
    pulse_ms: u64,
    pan_reversal_now: bool,
    tilt_reversal_now: bool,
) -> bool {
    candidate && pulse_ms >= PULSE_LUT_MIN_MS && match axis_of(direction) {
        Some((ControlAxis::Pan, _)) => !pan_reversal_now,
        Some((ControlAxis::Tilt, _)) => !tilt_reversal_now,
        None => false,
    }
}

pub fn pulse_lut_learning_allowed(
    direction: PtzDirection,
    pulse_lut_candidate: bool,
    pulse_ms: u64,
    pan_reversal_now: bool,
    tilt_reversal_now: bool,
) -> (r: bool)
    ensures
        r == may_learn(
            direction,
            pulse_lut_candidate,
            pulse_ms,
            pan_reversal_now,
            tilt_reversal_now,
        ),
{
    if !pulse_lut_candidate || pulse_ms < PULSE_LUT_MIN_MS {
        return false;
    }
    match control_axis_direction(direction) {
        Some((ControlAxis::Pan, _)) => !pan_reversal_now,
        Some((ControlAxis::Tilt, _)) => !tilt_reversal_now,
        None => false,
    }
}

/// What to look for after a push: nothing after one of no length or along a diagonal.
pub open spec fn pending_pulse(
    direction: PtzDirection,
    pulse_ms: u64,
    edge_band: bool,
) -> Option<PendingPulseObservation> {
    match axis_of(direction) {
        Some((axis, way)) => if pulse_ms == 0 {
            None
        } else {
            Some(PendingPulseObservation { axis, direction: way, pulse_ms, edge_band })
        },
        None => None,
    }
}

pub fn pending_pulse_observation_for_command(direction: PtzDirection, pulse_ms: u64) -> (r: Option<
    PendingPulseObservation,
>)
    ensures
        r == pending_pulse(direction, pulse_ms, false),
{
    if pulse_ms == 0 {
        return None;
    }
    match control_axis_direction(direction) {
        Some((axis, way)) => Some(
            PendingPulseObservation { axis, direction: way, pulse_ms, edge_band: false },
        ),
        None => None,
    }
}

pub fn pending_pulse_observation_for_lut_command(
    direction: PtzDirection,
    pulse_ms: u64,
    edge_band: bool,
    learning_enabled: bool,
) -> (r: Option<PendingPulseObservation>)
    ensures
        r == if learning_enabled {
            pending_pulse(direction, pulse_ms, edge_band)
        } else {
            None
        },
{
    if !learning_enabled {
        return None;
    }
    match pending_pulse_observation_for_command(direction, pulse_ms) {
        Some(observation) => {
            let mut observation = observation;
            observation.edge_band = edge_band;
            Some(observation)
        },
        None => None,
    }
}

// ---------------------------------------------------------------- the length of a pulse

/// What bears on the speed and the length of a push.
#[derive(Debug, Clone, Copy, PartialEq, Eq, Structural)]
pub struct PulseContext {
    /// The target is near, and pushes go at the lowest speed.
    pub near_target: bool,
    /// The error of the push is so small that a tilt needs no time.
    pub tilt_micro_error: bool,
    /// The camera stands near the end of the tilt axis to which the push goes.
    pub tilt_edge_ahead: bool,
    /// Both errors are within the band in which swinging is damped.
    pub within_damping_band: bool,
    pub pan_reversal_now: bool,
    pub pan_error_small: bool,
    pub tilt_reversal_now: bool,
    pub tilt_error_small: bool,
    /// The error on the axis of the push is beyond the strict tolerance.
    pub beyond_strict_tolerance: bool,
}

pub open spec fn at_most(n: u64, limit: u64) -> u64 {
    if n <= limit {
        n
    } else {
        limit
    }
}

/// A push is slowed down and cut to the shortest of the lengths that apply.
pub open spec fn is_slowed(
    direction: PtzDirection,
    context: PulseContext,
    reversals: int,
) -> bool {
    ||| is_on(direction, ControlAxis::Tilt) && context.tilt_edge_ahead
    ||| reversals >= OSCILLATION_DAMPING_REVERSAL_SUM && context.within_damping_band
    ||| is_reversing(direction, context)
}

/// The push goes right after a reversal on its axis, with a small error.
pub open spec fn is_reversing(direction: PtzDirection, context: PulseContext) -> bool {
    ||| is_on(direction, ControlAxis::Pan) && context.pan_reversal_now && context.pan_error_small
    ||| is_on(direction, ControlAxis::Tilt) && context.tilt_reversal_now && context.tilt_error_small
}

/// The length of a push near the target.
pub open spec fn near_pulse_ms(
    direction: PtzDirection,
    base_pulse_ms: u64,
    context: PulseContext,
) -> u64 {
    if !context.near_target {
        base_pulse_ms
    } else if is_on(direction, ControlAxis::Tilt) && context.tilt_micro_error {
        0
    } else {
        at_most(base_pulse_ms, NEAR_TARGET_SPEED1_MAX_PULSE_MS)
    }
}

/// The length of a push after it was cut.
pub open spec fn cut_pulse_ms(
    direction: PtzDirection,
    base_pulse_ms: u64,
    context: PulseContext,
    reversals: int,
) -> u64 {
    let near = near_pulse_ms(direction, base_pulse_ms, context);
    if is_reversing(direction, context) {
        at_most(near, REVERSAL_MICRO_MAX_PULSE_MS)
    } else if is_slowed(direction, context, reversals) {
        at_most(near, TILT_EDGE_CONTROL_MAX_PULSE_MS)
    } else {
        near
    }
}

/// The speed and the length of a push. A push of no length is made a short one while the
/// error on its axis is beyond the strict tolerance.
pub open spec fn shaped_pulse(
    direction: PtzDirection,
    base_speed: u8,
    base_pulse_ms: u64,
    context: PulseContext,
    reversals: int,
) -> (u8, u64) {
    let speed = if context.near_target || base_speed < 1 || is_slowed(
        direction,
        context,
        reversals,
    ) {
        1u8
    } else {
        base_speed
    };
    let pulse_ms = cut_pulse_ms(direction, base_pulse_ms, context, reversals);
    (
        speed,
        if pulse_ms == 0 && axis_of(direction) is Some && context.beyond_strict_tolerance {
            ACTIVE_COMMAND_MIN_PULSE_MS
        } else {
            pulse_ms
        },
    )
}

fn limit(n: u64, most: u64) -> (r: u64)
    ensures
        r == at_most(n, most),
{
    if n <= most {
        n
    } else {
        most
    }
}

pub fn shape_pulse(
    direction: PtzDirection,
    base_speed: u8,
    base_pulse_ms: u64,
    context: PulseContext,
    pan_reversals: u64,
    tilt_reversals: u64,
) -> (r: (u8, u64))
    ensures
        r == shaped_pulse(
            direction,
            base_speed,
            base_pulse_ms,
            context,
            reversal_sum(pan_reversals, tilt_reversals),
        ),
{
    let (on_pan, on_tilt) = match control_axis_direction(direction) {
        Some((ControlAxis::Pan, _)) => (true, false),
        Some((ControlAxis::Tilt, _)) => (false, true),
        None => (false, false),
    };
    let mut speed: u8 = if context.near_target || base_speed < 1 {
        1
    } else {
        base_speed
    };
    let mut pulse_ms: u64 = base_pulse_ms;
    if context.near_target {
        pulse_ms = if on_tilt && context.tilt_micro_error {
            0
        } else {
            limit(pulse_ms, NEAR_TARGET_SPEED1_MAX_PULSE_MS)
        };
    }
    if on_tilt && context.tilt_edge_ahead {
        speed = 1;
        pulse_ms = limit(pulse_ms, TILT_EDGE_CONTROL_MAX_PULSE_MS);
    }
    if pan_reversals.saturating_add(tilt_reversals) >= OSCILLATION_DAMPING_REVERSAL_SUM
        && context.within_damping_band {
        speed = 1;
        pulse_ms = limit(pulse_ms, OSCILLATION_DAMPING_PULSE_MS_MAX);
    }
    if (on_pan && context.pan_reversal_now && context.pan_error_small) || (on_tilt
        && context.tilt_reversal_now && context.tilt_error_small) {
        speed = 1;
        pulse_ms = limit(pulse_ms, REVERSAL_MICRO_MAX_PULSE_MS);
    }
    if pulse_ms == 0 && (on_pan || on_tilt) && context.beyond_strict_tolerance {
        pulse_ms = ACTIVE_COMMAND_MIN_PULSE_MS;
    }
    (speed, pulse_ms)
}

} // verus!
