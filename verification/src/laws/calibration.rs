//! Calibrating: which way an axis goes, how far, and back again.
use crate::error::ErrorModel;
use crate::model::{PtzDirection, StatusModel};
use crate::usecases::ptz_calibrate_auto::{
    bounds_step, count_of, counts_of, deadband_limit, deadband_step, detect_step, furthest,
    probe_step, restore_step, restores_after, sampled, sweep_over, swept, AxisKind, AxisMotion,
    AxisSweep, BoundsModel, DeadbandStep, DetectModel, HomeRestore, ProbeStep, RestoreStep,
};
use vstd::prelude::*;

verus! {

// ---------------------------------------------------------------- directions

/// The push that is tried first, and the one after it.
pub open spec fn first_push(axis: AxisKind) -> PtzDirection {
    match axis {
        AxisKind::Pan => PtzDirection::Right,
        AxisKind::Tilt => PtzDirection::Up,
    }
}

pub open spec fn second_push(axis: AxisKind) -> PtzDirection {
    match axis {
        AxisKind::Pan => PtzDirection::Left,
        AxisKind::Tilt => PtzDirection::Down,
    }
}

/// The count went far enough to tell: by eight on the pan axis, by four on the tilt axis.
pub open spec fn moved_enough(axis: AxisKind, before: i64, after: i64) -> bool {
    let enough: int = match axis {
        AxisKind::Pan => 8,
        AxisKind::Tilt => 4,
    };
    after - before >= enough || before - after >= enough
}

/// The direction that is found to increase an axis is the one whose push raised its count. If
/// the first push moved the axis far enough, it is the direction of that push exactly where
/// the second reading is above the first.
pub proof fn law_first_push_tells(axis: AxisKind, readings: Seq<i64>, pulses: int)
    requires
        2 <= readings.len() <= pulses,
        moved_enough(axis, readings[0], readings[1]),
    ensures
        detect_step(axis, readings, pulses) matches DetectModel::Done(Ok(motion)) && {
            &&& motion.increase == first_push(axis) <==> readings[1] > readings[0]
            &&& motion.decrease == first_push(axis) <==> readings[1] < readings[0]
            &&& motion.increase == second_push(axis) <==> readings[1] < readings[0]
            &&& motion.decrease == second_push(axis) <==> readings[1] > readings[0]
        },
{
}

/// Otherwise, if the second push did, it is the direction of the second push exactly where
/// the fourth reading is above the third.
pub proof fn law_second_push_tells(axis: AxisKind, readings: Seq<i64>, pulses: int)
    requires
        4 <= readings.len() <= pulses,
        !moved_enough(axis, readings[0], readings[1]),
        moved_enough(axis, readings[2], readings[3]),
    ensures
        detect_step(axis, readings, pulses) matches DetectModel::Done(Ok(motion)) && {
            &&& motion.increase == second_push(axis) <==> readings[3] > readings[2]
            &&& motion.decrease == second_push(axis) <==> readings[3] < readings[2]
            &&& motion.increase == first_push(axis) <==> readings[3] < readings[2]
            &&& motion.decrease == first_push(axis) <==> readings[3] > readings[2]
        },
{
}

/// Where neither push moved the axis far enough, nothing is found, and before that the axis
/// is read on.
pub proof fn law_nothing_is_told_without_movement(axis: AxisKind, readings: Seq<i64>, pulses: int)
    requires
        readings.len() <= pulses,
    ensures
        readings.len() < 2 ==> detect_step(axis, readings, pulses) == DetectModel::Read,
        2 <= readings.len() < 4 && !moved_enough(axis, readings[0], readings[1]) ==> detect_step(
            axis,
            readings,
            pulses,
        ) == DetectModel::Read,
        4 <= readings.len() && !moved_enough(axis, readings[0], readings[1]) && !moved_enough(
            axis,
            readings[2],
            readings[3],
        ) ==> (detect_step(axis, readings, pulses) matches DetectModel::Done(Err(_))),
{
}

/// The first push and its undoing, the second push and its undoing: each follows a reading.
pub proof fn law_pushes_are_tried_and_undone(axis: AxisKind, readings: Seq<i64>, pulses: int)
    requires
        readings.len() > pulses >= 0,
    ensures
        pulses == 0 || pulses == 3 ==> detect_step(axis, readings, pulses) == DetectModel::Pulse(
            first_push(axis),
        ),
        pulses == 1 || pulses == 2 ==> detect_step(axis, readings, pulses) == DetectModel::Pulse(
            second_push(axis),
        ),
{
}

/// What is found does not depend on the two axes being called one or the other, but for the
/// names of the directions: a rise of the count after the first push is told in the same way
/// of both, and for readings that are turned upside down the two directions change places.
pub proof fn law_directions_mirror(axis: AxisKind, a: i64, b: i64)
    requires
        moved_enough(axis, a, b),
    ensures
        (detect_step(axis, seq![a, b], 2), detect_step(axis, seq![b, a], 2)) matches (
            DetectModel::Done(Ok(one)),
            DetectModel::Done(Ok(other)),
        ) && one.increase == other.decrease && one.decrease == other.increase && one.increase
            != one.decrease,
{
    assert(seq![a, b][0] == a && seq![a, b][1] == b);
    assert(seq![b, a][0] == b && seq![b, a][1] == a);
}

// ---------------------------------------------------------------- positions

/// The count of an axis is the position of that axis.
pub proof fn law_counts_are_of_their_axis(status: StatusModel)
    ensures
        (status.pan_position matches Some(n) ==> count_of(status, AxisKind::Pan) == Ok::<
            i64,
            ErrorModel,
        >(n)),
        (status.tilt_position matches Some(n) ==> count_of(status, AxisKind::Tilt) == Ok::<
            i64,
            ErrorModel,
        >(n)),
        status.pan_position is None ==> count_of(status, AxisKind::Pan) is Err && counts_of(
            status,
        ) is Err,
        status.tilt_position is None ==> count_of(status, AxisKind::Tilt) is Err && counts_of(
            status,
        ) is Err,
        status.pan_position is Some && status.tilt_position is Some ==> counts_of(status) == Ok::<
            (i64, i64),
            ErrorModel,
        >((status.pan_position->0, status.tilt_position->0)),
{
}

// ---------------------------------------------------------------- sweeps

/// A sweep keeps the smallest count on its way down and the largest on its way up.
pub proof fn law_sweep_keeps_the_furthest(sweep: AxisSweep, before: i64, after: i64)
    ensures
        sweep.toward_min ==> swept(sweep, before, after).best <= sweep.best && swept(
            sweep,
            before,
            after,
        ).best <= after,
        !sweep.toward_min ==> swept(sweep, before, after).best >= sweep.best && swept(
            sweep,
            before,
            after,
        ).best >= after,
        swept(sweep, before, after).best == sweep.best || swept(sweep, before, after).best == after,
        swept(sweep, before, after).toward_min == sweep.toward_min,
        swept(sweep, before, after).axis == sweep.axis,
{
}

/// A sweep ends after three pulses in a row that hardly moved the axis, by four counts at most
/// on the pan axis and by two on the tilt axis, or after sixty-four pulses.
pub proof fn law_sweep_ends_where_the_axis_stalls(sweep: AxisSweep, before: i64, after: i64)
    requires
        !sweep_over(sweep),
    ensures
        ({
            let hardly: int = match sweep.axis {
                AxisKind::Pan => 4,
                AxisKind::Tilt => 2,
            };
            let stalled = -hardly <= after - before <= hardly;
            let next = swept(sweep, before, after);
            &&& next.steps == sweep.steps + 1
            &&& stalled ==> next.stall_steps == sweep.stall_steps + 1
            &&& !stalled ==> next.stall_steps == 0
            &&& sweep_over(next) <==> (stalled && sweep.stall_steps == 2) || sweep.steps == 63
        }),
{
}

/// A movement is kept as a sample by its size, as long as there is room: a hundred on the pan
/// axis and a hundred and forty on the tilt axis.
pub proof fn law_movements_are_sampled(samples: Seq<u64>, axis: AxisKind, before: i64, after: i64)
    ensures
        ({
            let room: int = match axis {
                AxisKind::Pan => 100,
                AxisKind::Tilt => 140,
            };
            let kept = sampled(samples, axis, before, after);
            &&& samples.len() >= room || after == before ==> kept == samples
            &&& samples.len() < room && after > before ==> kept.len() == samples.len() + 1
                && kept.last() == after - before && kept.drop_last() =~= samples
            &&& samples.len() < room && after < before ==> kept.len() == samples.len() + 1
                && kept.last() == before - after && kept.drop_last() =~= samples
        }),
{
}

/// The ends of an axis are the smallest count of the sweeps down and the largest of the
/// sweeps up.
pub proof fn law_ends_are_the_furthest(counts: Seq<i64>, k: int)
    requires
        0 <= k < counts.len(),
    ensures
        furthest(true, counts) <= counts[k],
        furthest(false, counts) >= counts[k],
        counts.contains(furthest(true, counts)),
        counts.contains(furthest(false, counts)),
    decreases counts.len(),
{
    if counts.len() > 1 {
        let before = counts.drop_last();
        let at = if k < counts.len() - 1 {
            k
        } else {
            0
        };
        law_ends_are_the_furthest(before, at);
        let down = choose|i: int| 0 <= i < before.len() && before[i] == furthest(true, before);
        let up = choose|i: int| 0 <= i < before.len() && before[i] == furthest(false, before);
        assert(counts[down] == before[down]);
        assert(counts[up] == before[up]);
        assert(counts[counts.len() - 1] == counts.last());
    } else {
        assert(counts[0] == furthest(true, counts));
    }
}

/// The axis is swept down and up in turn, first down; once there are samples enough, or after
/// nine passes, the ends are reported, the smaller one first.
pub proof fn law_axis_is_swept_both_ways(
    axis: AxisKind,
    mins: Seq<i64>,
    maxs: Seq<i64>,
    samples: int,
)
    requires
        maxs.len() <= mins.len() <= maxs.len() + 1,
    ensures
        ({
            let enough: int = match axis {
                AxisKind::Pan => 50,
                AxisKind::Tilt => 70,
            };
            let step = bounds_step(axis, mins, maxs, samples);
            &&& mins.len() == 0 ==> step == (BoundsModel::Sweep { toward_min: true })
            &&& mins.len() > maxs.len() ==> step == (BoundsModel::Sweep { toward_min: false })
            &&& mins.len() == maxs.len() && 0 < maxs.len() < 9 && samples < enough ==> step == (
            BoundsModel::Sweep { toward_min: true })
            &&& mins.len() == maxs.len() && maxs.len() > 0 && (samples >= enough || maxs.len() >= 9)
                ==> step is Done
            &&& step matches BoundsModel::Done(Ok((min, max))) ==> min < max && (forall|i: int|
                0 <= i < mins.len() ==> min <= #[trigger] mins[i]) && (forall|i: int|
                0 <= i < maxs.len() ==> max >= #[trigger] maxs[i]) && mins.contains(min)
                && maxs.contains(max)
        }),
{
    if mins.len() == maxs.len() && maxs.len() > 0 {
        assert forall|i: int| 0 <= i < mins.len() implies furthest(true, mins)
            <= #[trigger] mins[i] by {
            law_ends_are_the_furthest(mins, i);
        }
        assert forall|i: int| 0 <= i < maxs.len() implies furthest(false, maxs)
            >= #[trigger] maxs[i] by {
            law_ends_are_the_furthest(maxs, i);
        }
        law_ends_are_the_furthest(mins, 0);
        law_ends_are_the_furthest(maxs, 0);
    }
}

// ---------------------------------------------------------------- going back

/// On its way back the axis is pushed towards where it was: in the direction that increases
/// its count exactly where the count is below, faster the further it has to go, and not at
/// all within ten counts.
pub proof fn law_axis_goes_back(motion: AxisMotion, home: i64, moves: int, count: i64)
    requires
        0 <= moves < 36,
    ensures
        ({
            let step = restore_step(motion, home, moves, Some(count));
            let off = home - count;
            &&& -10 <= off <= 10 <==> step == RestoreStep::Done
            &&& off > 10 ==> (step matches RestoreStep::Move { direction, .. } && direction
                == motion.increase)
            &&& off < -10 ==> (step matches RestoreStep::Move { direction, .. } && direction
                == motion.decrease)
            &&& (10 < off <= 40 || -40 <= off < -10) ==> (step matches RestoreStep::Move {
                speed,
                ..
            } && speed == 2)
            &&& (40 < off <= 140 || -140 <= off < -40) ==> (step matches RestoreStep::Move {
                speed,
                ..
            } && speed == 4)
            &&& (off > 140 || off < -140) ==> (step matches RestoreStep::Move { speed, .. } && speed
                == 6)
        }),
        restore_step(motion, home, moves, None) == RestoreStep::Read,
        forall|late: int|
            late >= 36 ==> #[trigger] restore_step(motion, home, late, Some(count))
                == RestoreStep::Done,
{
}

/// After a calibration that failed, each axis that was found goes back to its own home: pan
/// first, then tilt. After one that succeeded, none does.
pub proof fn law_axes_go_back_to_their_own_homes(
    home_pan: i64,
    home_tilt: i64,
    pan: AxisMotion,
    tilt: AxisMotion,
)
    ensures
        restores_after(false, home_pan, home_tilt, Some(pan), Some(tilt)) =~= seq![
            HomeRestore { axis: AxisKind::Pan, home_position: home_pan, motion: pan },
            HomeRestore { axis: AxisKind::Tilt, home_position: home_tilt, motion: tilt },
        ],
        restores_after(false, home_pan, home_tilt, Some(pan), None) =~= seq![
            HomeRestore { axis: AxisKind::Pan, home_position: home_pan, motion: pan },
        ],
        restores_after(false, home_pan, home_tilt, None, Some(tilt)) =~= seq![
            HomeRestore { axis: AxisKind::Tilt, home_position: home_tilt, motion: tilt },
        ],
        restores_after(false, home_pan, home_tilt, None, None).len() == 0,
        restores_after(true, home_pan, home_tilt, Some(pan), Some(tilt)).len() == 0,
{
}

// ---------------------------------------------------------------- the smallest movement

/// A probe pushes for longer each time, until the axis moves far enough; what it reports is
/// how far it moved.
pub proof fn law_probe_reports_the_movement(axis: AxisKind, pulses: Seq<(i64, i64)>)
    requires
        pulses.len() > 0,
    ensures
        moved_enough(axis, pulses.last().0, pulses.last().1) ==> (probe_step(axis, pulses)
            matches ProbeStep::Done { count } && ({
            let moved = pulses.last().1 - pulses.last().0;
            &&& moved > 0 && moved <= i64::MAX ==> count == moved
            &&& moved < 0 && -moved <= i64::MAX ==> count == -moved
        })),
        !moved_enough(axis, pulses.last().0, pulses.last().1) && pulses.len() < 9 ==> probe_step(
            axis,
            pulses,
        ) is Pulse,
        !moved_enough(axis, pulses.last().0, pulses.last().1) && pulses.len() >= 9 ==> probe_step(
            axis,
            pulses,
        ) == (ProbeStep::Done {
            count: match axis {
                AxisKind::Pan => 8,
                AxisKind::Tilt => 4,
            },
        }),
{
}

/// Each pulse of a probe lasts longer than the one before it.
pub proof fn law_probe_pulses_grow(axis: AxisKind, earlier: Seq<(i64, i64)>, later: Seq<(i64, i64)>)
    requires
        earlier.len() < later.len() < 9,
        earlier.len() > 0 ==> !moved_enough(axis, earlier.last().0, earlier.last().1),
        !moved_enough(axis, later.last().0, later.last().1),
    ensures
        (probe_step(axis, earlier), probe_step(axis, later)) matches (
            ProbeStep::Pulse { pulse_ms: a },
            ProbeStep::Pulse { pulse_ms: b },
        ) && 8 <= a < b <= 110,
{
}

/// The two directions are probed in turn, seven times each, after a push the other way.
pub proof fn law_directions_are_probed_in_turn(
    motion: AxisMotion,
    increase: Seq<i64>,
    decrease: Seq<i64>,
    span: int,
)
    requires
        decrease.len() <= increase.len() <= decrease.len() + 1,
        increase.len() <= 7,
    ensures
        increase.len() == decrease.len() && increase.len() < 7 ==> deadband_step(
            motion,
            increase,
            decrease,
            span,
        ) == (DeadbandStep::Probe { direction: motion.increase, preload: motion.decrease }),
        increase.len() > decrease.len() ==> deadband_step(motion, increase, decrease, span) == (
        DeadbandStep::Probe { direction: motion.decrease, preload: motion.increase }),
        decrease.len() == 7 ==> deadband_step(motion, increase, decrease, span) is Done,
{
}

/// The smallest movement counts for no more than a twentieth of the axis, between six and two
/// hundred and forty counts.
pub proof fn law_deadband_is_limited(span: int)
    ensures
        6 <= deadband_limit(span) <= 240,
        120 <= span <= 4800 ==> span - 10 <= 20 * deadband_limit(span) <= span + 10,
        span < 120 ==> deadband_limit(span) == 6,
        span > 4810 ==> deadband_limit(span) == 240,
{
}

} // verus!
