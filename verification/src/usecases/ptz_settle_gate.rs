//! When a movement counts as finished.
use vstd::prelude::*;

verus! {

/// Counts the readings in a row at which the position stood still on both axes.
#[derive(Debug, Clone, Copy, PartialEq, Eq, Structural)]
pub struct PositionSettlingTracker {
    stable_steps: usize,
}

impl View for PositionSettlingTracker {
    type V = nat;

    closed spec fn view(&self) -> nat {
        self.stable_steps as nat
    }
}

/// One more, up to the largest number that fits.
pub open spec fn one_more(n: nat) -> nat {
    if n < usize::MAX {
        n + 1
    } else {
        usize::MAX as nat
    }
}

/// The size of a number.
pub open spec fn magnitude(n: int) -> int {
    if n < 0 {
        -n
    } else {
        n
    }
}

/// An axis stood still where it is known to have moved by no more than the threshold.
pub open spec fn stood_still(delta: Option<i128>, threshold: int) -> bool {
    match delta {
        Some(moved) => magnitude(moved as int) <= magnitude(threshold),
        None => false,
    }
}

/// The number of steps after another reading.
pub open spec fn settled(
    steps: nat,
    pan_delta: Option<i128>,
    tilt_delta: Option<i128>,
    threshold: int,
) -> nat {
    if stood_still(pan_delta, threshold) && stood_still(tilt_delta, threshold) {
        one_more(steps)
    } else {
        0
    }
}

fn axis_delta_is_stable(delta: Option<i128>, threshold: i128) -> (r: bool)
    ensures
        r == stood_still(delta, threshold as int),
{
    match delta {
        Some(moved) => {
            let least: i128 = if threshold > 0 {
                -threshold
            } else {
                threshold
            };
            least <= moved && (moved <= 0 || least <= -moved)
        },
        None => false,
    }
}

impl PositionSettlingTracker {
    pub fn new() -> (r: Self)
        ensures
            r@ == 0,
    {
        PositionSettlingTracker { stable_steps: 0 }
    }

    /// Notes by how much the axes moved, in the same unit as the threshold.
    pub fn observe(
        &mut self,
        pan_delta: Option<i128>,
        tilt_delta: Option<i128>,
        threshold: i128,
    )
        ensures
            final(self)@ == settled(old(self)@, pan_delta, tilt_delta, threshold as int),
    {
        if axis_delta_is_stable(pan_delta, threshold) && axis_delta_is_stable(
            tilt_delta,
            threshold,
        ) {
            self.stable_steps = self.stable_steps.saturating_add(1);
        } else {
            self.stable_steps = 0;
        }
    }

    pub fn stable_steps(self) -> (r: usize)
        ensures
            r == self@,
    {
        self.stable_steps
    }

    pub fn reset(&mut self)
        ensures
            final(self)@ == 0,
    {
        self.stable_steps = 0;
    }
}

/// A movement counts as finished once the position has stood still for the required number
/// of readings, at least one, and the camera does not say that it moves: either it says
/// that it stands still and the movement, where its age is known, is old enough, or the
/// movement is known to be old enough.
pub open spec fn gate_open(
    moving: Option<bool>,
    move_age_ms: Option<u64>,
    min_age_ms: u64,
    stable_steps: nat,
    required_stable_steps: nat,
) -> bool {
    let old_enough = match move_age_ms {
        Some(age_ms) => age_ms >= min_age_ms,
        None => moving == Some(false),
    };
    stable_steps >= 1 && stable_steps >= required_stable_steps && moving != Some(true) && old_enough
}

/// Whether a movement counts as finished.
pub fn completion_gate_allows_success(
    moving: Option<bool>,
    move_age_ms: Option<u64>,
    min_age_ms: u64,
    stable_steps: usize,
    required_stable_steps: usize,
) -> (r: bool)
    ensures
        r == gate_open(
            moving,
            move_age_ms,
            min_age_ms,
            stable_steps as nat,
            required_stable_steps as nat,
        ),
{
    if stable_steps < 1 || stable_steps < required_stable_steps {
        return false;
    }
    match moving {
        Some(true) => false,
        Some(false) => match move_age_ms {
            Some(age_ms) => age_ms >= min_age_ms,
            None => true,
        },
        None => match move_age_ms {
            Some(age_ms) => age_ms >= min_age_ms,
            None => false,
        },
    }
}

/// What the camera tells about a movement.
#[derive(Debug, Clone, Copy, PartialEq, Eq, Structural)]
pub struct CompletionGateCapabilities {
    pub reports_moving: bool,
    pub reports_age: bool,
}

impl CompletionGateCapabilities {
    pub fn from_hint(moving: Option<bool>, move_age_ms: Option<u64>) -> (r: Self)
        ensures
            r.reports_moving == (moving is Some),
            r.reports_age == (move_age_ms is Some),
    {
        CompletionGateCapabilities {
            reports_moving: moving.is_some(),
            reports_age: move_age_ms.is_some(),
        }
    }

    pub open spec fn full(self) -> bool {
        self.reports_moving && self.reports_age
    }
}

/// A movement counts as finished where the camera does not say that it moves, the movement
/// is old enough, where its age is known, and the position has stood still long enough.
/// How long that is depends on whether the camera tells everything.
pub open spec fn capable_gate_open(
    moving: Option<bool>,
    move_age_ms: Option<u64>,
    capabilities: CompletionGateCapabilities,
    min_age_ms: u64,
    stable_steps: nat,
    required_stable_steps: nat,
    fallback_required_stable_steps: nat,
) -> bool {
    &&& moving != Some(true)
    &&& move_age_ms matches Some(age_ms) ==> age_ms >= min_age_ms
    &&& stable_steps >= 1
    &&& stable_steps >= if capabilities.full() {
        required_stable_steps
    } else {
        fallback_required_stable_steps
    }
}

/// Whether a movement counts as finished, given how much the camera tells.
pub fn capable_gate_allows_success(
    moving: Option<bool>,
    move_age_ms: Option<u64>,
    capabilities: CompletionGateCapabilities,
    min_age_ms: u64,
    stable_steps: usize,
    required_stable_steps: usize,
    fallback_required_stable_steps: usize,
) -> (r: bool)
    ensures
        r == capable_gate_open(
            moving,
            move_age_ms,
            capabilities,
            min_age_ms,
            stable_steps as nat,
            required_stable_steps as nat,
            fallback_required_stable_steps as nat,
        ),
{
    let required: usize = if capabilities.reports_moving && capabilities.reports_age {
        required_stable_steps
    } else {
        fallback_required_stable_steps
    };
    if stable_steps < 1 || stable_steps < required {
        return false;
    }
    if let Some(true) = moving {
        return false;
    }
    match move_age_ms {
        Some(age_ms) => age_ms >= min_age_ms,
        None => true,
    }
}

// ---------------------------------------------------------------- laws

/// Nothing counts as finished while the camera says that it moves, nor before the position
/// has stood still at a reading.
pub proof fn law_gate_stays_shut_while_moving(
    moving: Option<bool>,
    move_age_ms: Option<u64>,
    capabilities: CompletionGateCapabilities,
    min_age_ms: u64,
    stable_steps: nat,
    required: nat,
    fallback: nat,
)
    requires
        moving == Some(true) || stable_steps == 0,
    ensures
        !gate_open(moving, move_age_ms, min_age_ms, stable_steps, required),
        !capable_gate_open(
            moving,
            move_age_ms,
            capabilities,
            min_age_ms,
            stable_steps,
            required,
            fallback,
        ),
{
}

/// A gate that is open stays open while the position stands still for longer.
pub proof fn law_gate_stays_open(
    moving: Option<bool>,
    move_age_ms: Option<u64>,
    capabilities: CompletionGateCapabilities,
    min_age_ms: u64,
    fewer: nat,
    more: nat,
    required: nat,
    fallback: nat,
)
    requires
        fewer <= more,
    ensures
        gate_open(moving, move_age_ms, min_age_ms, fewer, required) ==> gate_open(
            moving,
            move_age_ms,
            min_age_ms,
            more,
            required,
        ),
        capable_gate_open(
            moving,
            move_age_ms,
            capabilities,
            min_age_ms,
            fewer,
            required,
            fallback,
        ) ==> capable_gate_open(
            moving,
            move_age_ms,
            capabilities,
            min_age_ms,
            more,
            required,
            fallback,
        ),
{
}

} // verus!
