//! What the schedule evaluator does over a whole run of polls.
//!
//! The evaluator sees one reading at a time. The laws here speak of all the
//! readings of a run: each alarm sounds once for each hour that the run
//! passes through, and never outside the window.

use vstd::prelude::*;
use crate::clock::{hour_of, lemma_decomposition, minute_of, WallClockSample};
use crate::command::AlarmCommand;
use crate::config::QuietHoursWindow;
use crate::schedule::{due, fires, marker_after, Evaluation, ScheduleState};

verus! {

/// The marker of the rule for minute `mark` after it has seen `samples`, in
/// order, starting from `marker`.
pub open spec fn marker_after_all(
    marker: Option<u8>,
    samples: Seq<WallClockSample>,
    window: QuietHoursWindow,
    mark: u8,
) -> Option<u8>
    decreases samples.len(),
{
    if samples.len() == 0 {
        marker
    } else {
        marker_after(
            marker_after_all(marker, samples.drop_last(), window, mark),
            samples.last(),
            window,
            mark,
        )
    }
}

/// Whether the rule for minute `mark`, started at startup, fires on reading
/// number `i` of `samples`.
pub open spec fn fires_at(
    samples: Seq<WallClockSample>,
    window: QuietHoursWindow,
    mark: u8,
    i: int,
) -> bool {
    fires(marker_after_all(None, samples.take(i), window, mark), samples[i], window, mark)
}

/// Number of the last reading before number `n` that falls on minute `mark`
/// of an hour inside the window; -1 if there is none.
pub open spec fn latest_due(
    samples: Seq<WallClockSample>,
    window: QuietHoursWindow,
    mark: u8,
    n: int,
) -> int
    decreases n,
{
    if n <= 0 {
        -1
    } else if due(samples[n - 1], window, mark) {
        n - 1
    } else {
        latest_due(samples, window, mark, n - 1)
    }
}

impl ScheduleState {
    /// The state after polls that read `samples`, in order.
    pub open spec fn after_all(self, samples: Seq<WallClockSample>, window: QuietHoursWindow)
        -> ScheduleState
        decreases samples.len(),
    {
        if samples.len() == 0 {
            self
        } else {
            self.after_all(samples.drop_last(), window).next_of(samples.last(), window)
        }
    }
}

/// What poll number `i` of a run that starts at startup and reads `samples`
/// decides.
pub open spec fn decision_at(samples: Seq<WallClockSample>, window: QuietHoursWindow, i: int)
    -> Evaluation {
    ScheduleState::fresh().after_all(samples.take(i), window).evaluation_of(samples[i], window)
}

/// The readings that the instants `instants`, in epoch seconds, give.
pub open spec fn readings(instants: Seq<nat>) -> Seq<WallClockSample> {
    Seq::new(instants.len(), |i: int| WallClockSample::of_epoch(instants[i]))
}

/// Number of the hour since the epoch that the instant `t` falls in.
pub open spec fn epoch_hour(t: nat) -> nat {
    t / 3600
}

/// The clock never runs backwards from one poll to the next.
pub open spec fn chronological(instants: Seq<nat>) -> bool {
    forall|i: int, j: int| 0 <= i <= j < instants.len() ==> instants[i] <= instants[j]
}

/// Whether poll number `i` falls on minute `mark` of an hour inside the
/// window.
pub open spec fn due_at(instants: Seq<nat>, window: QuietHoursWindow, mark: u8, i: int) -> bool {
    due(WallClockSample::of_epoch(instants[i]), window, mark)
}

/// The run never comes to the same hour of the day on another day without
/// having met, in between, the minute `mark` of some other hour inside the
/// window. A clock that is polled many times a minute, with a window of two
/// hours or more, gives such a run.
pub open spec fn steady(instants: Seq<nat>, window: QuietHoursWindow, mark: u8) -> bool {
    forall|i: int, j: int|
        #![trigger due_at(instants, window, mark, i), due_at(instants, window, mark, j)]
        0 <= i < j < instants.len() && due_at(instants, window, mark, i) && due_at(
            instants,
            window,
            mark,
            j,
        ) && hour_of(instants[i]) == hour_of(instants[j]) && epoch_hour(instants[i])
            != epoch_hour(instants[j]) ==> exists|k: int|
            i < k < j && #[trigger] due_at(instants, window, mark, k) && hour_of(instants[k])
                != hour_of(instants[i])
}

/// The hourly alarm that a run over `instants` sounds on poll number `i`.
pub open spec fn hourly_at(instants: Seq<nat>, window: QuietHoursWindow, i: int) -> Option<
    AlarmCommand,
> {
    decision_at(readings(instants), window, i).hourly
}

/// The ten-past alarm that a run over `instants` sounds on poll number `i`.
pub open spec fn ten_past_at(instants: Seq<nat>, window: QuietHoursWindow, i: int) -> Option<
    AlarmCommand,
> {
    decision_at(readings(instants), window, i).ten_past
}

/// A rule's marker changes only by the rule firing, so it always names the
/// hour of the last reading that fell on the rule's minute inside the window.
proof fn lemma_marker_after(
    marker: Option<u8>,
    sample: WallClockSample,
    window: QuietHoursWindow,
    mark: u8,
)
    ensures
        marker_after(marker, sample, window, mark) == if due(sample, window, mark) {
            Some(sample.hours)
        } else {
            marker
        },
{
}

proof fn lemma_latest_due(
    samples: Seq<WallClockSample>,
    window: QuietHoursWindow,
    mark: u8,
    n: int,
)
    requires
        0 <= n <= samples.len(),
    ensures
        -1 <= latest_due(samples, window, mark, n) < n,
        latest_due(samples, window, mark, n) >= 0 ==> due(
            samples[latest_due(samples, window, mark, n)],
            window,
            mark,
        ),
        forall|k: int|
            latest_due(samples, window, mark, n) < k < n ==> !due(
                #[trigger] samples[k],
                window,
                mark,
            ),
    decreases n,
{
    if n > 0 && !due(samples[n - 1], window, mark) {
        lemma_latest_due(samples, window, mark, n - 1);
    }
}

proof fn lemma_marker_is_latest_due(
    samples: Seq<WallClockSample>,
    window: QuietHoursWindow,
    mark: u8,
    n: int,
)
    requires
        0 <= n <= samples.len(),
    ensures
        marker_after_all(None, samples.take(n), window, mark) == if latest_due(
            samples,
            window,
            mark,
            n,
        ) >= 0 {
            Some(samples[latest_due(samples, window, mark, n)].hours)
        } else {
            None
        },
    decreases n,
{
    if n > 0 {
        lemma_marker_is_latest_due(samples, window, mark, n - 1);
        assert(samples.take(n).drop_last() == samples.take(n - 1));
        assert(samples.take(n).last() == samples[n - 1]);
        lemma_marker_after(
            marker_after_all(None, samples.take(n - 1), window, mark),
            samples[n - 1],
            window,
            mark,
        );
    }
}

proof fn lemma_state_markers(
    state: ScheduleState,
    samples: Seq<WallClockSample>,
    window: QuietHoursWindow,
)
    ensures
        state.after_all(samples, window).last_hour_fired == marker_after_all(
            state.last_hour_fired,
            samples,
            window,
            0,
        ),
        state.after_all(samples, window).last_ten_min_fired == marker_after_all(
            state.last_ten_min_fired,
            samples,
            window,
            10,
        ),
    decreases samples.len(),
{
    if samples.len() > 0 {
        lemma_state_markers(state, samples.drop_last(), window);
    }
}

/// What a poll decides, in terms of the two rules.
proof fn lemma_decision(samples: Seq<WallClockSample>, window: QuietHoursWindow, i: int)
    ensures
        decision_at(samples, window, i).hourly == if fires_at(samples, window, 0, i) {
            Some(AlarmCommand::hourly_of(samples[i].hours))
        } else {
            None
        },
        decision_at(samples, window, i).ten_past == if fires_at(samples, window, 10, i) {
            Some(AlarmCommand::ten_past_of())
        } else {
            None
        },
{
    lemma_state_markers(ScheduleState::fresh(), samples.take(i), window);
}

proof fn lemma_reading(instants: Seq<nat>, i: int)
    requires
        0 <= i < instants.len(),
    ensures
        readings(instants)[i] == WallClockSample::of_epoch(instants[i]),
        readings(instants)[i].hours == hour_of(instants[i]),
        readings(instants)[i].minutes == minute_of(instants[i]),
        hour_of(instants[i]) == epoch_hour(instants[i]) % 24,
{
    lemma_decomposition(instants[i]);
}

/// No two polls of one hour fire.
proof fn lemma_at_most_once(
    instants: Seq<nat>,
    window: QuietHoursWindow,
    mark: u8,
    i: int,
    j: int,
)
    requires
        chronological(instants),
        0 <= i < j < instants.len(),
        fires_at(readings(instants), window, mark, i),
        fires_at(readings(instants), window, mark, j),
    ensures
        epoch_hour(instants[i]) != epoch_hour(instants[j]),
{
    let samples = readings(instants);
    let p = latest_due(samples, window, mark, j);
    lemma_latest_due(samples, window, mark, j);
    lemma_marker_is_latest_due(samples, window, mark, j);
    assert(due(samples[i], window, mark));
    assert(i <= p);
    lemma_reading(instants, i);
    lemma_reading(instants, p);
    lemma_reading(instants, j);
    if epoch_hour(instants[i]) == epoch_hour(instants[j]) {
        assert(instants[i] <= instants[p] <= instants[j]);
        assert(epoch_hour(instants[p]) == epoch_hour(instants[i]));
        assert(samples[p].hours == samples[j].hours);
        assert(false);
    }
}

/// Every poll that falls on the rule's minute inside the window belongs to
/// an hour for which the rule fired, on that poll or on an earlier one.
proof fn lemma_at_least_once(instants: Seq<nat>, window: QuietHoursWindow, mark: u8, i: int)
    -> (k: int)
    requires
        chronological(instants),
        steady(instants, window, mark),
        0 <= i < instants.len(),
        due_at(instants, window, mark, i),
    ensures
        0 <= k <= i,
        fires_at(readings(instants), window, mark, k),
        epoch_hour(instants[k]) == epoch_hour(instants[i]),
    decreases i,
{
    let samples = readings(instants);
    lemma_reading(instants, i);
    if fires_at(samples, window, mark, i) {
        i
    } else {
        let p = latest_due(samples, window, mark, i);
        lemma_latest_due(samples, window, mark, i);
        lemma_marker_is_latest_due(samples, window, mark, i);
        assert(p >= 0);
        lemma_reading(instants, p);
        assert(due_at(instants, window, mark, p));
        assert(hour_of(instants[p]) == hour_of(instants[i]));
        if epoch_hour(instants[p]) != epoch_hour(instants[i]) {
            let k = choose|k: int|
                p < k < i && #[trigger] due_at(instants, window, mark, k) && hour_of(instants[k])
                    != hour_of(instants[p]);
            lemma_reading(instants, k);
            assert(due(samples[k], window, mark));
            assert(false);
        }
        lemma_at_least_once(instants, window, mark, p)
    }
}

proof fn lemma_once_per_hour(instants: Seq<nat>, window: QuietHoursWindow, mark: u8)
    requires
        chronological(instants),
        steady(instants, window, mark),
    ensures
        forall|i: int, j: int|
            #![trigger fires_at(readings(instants), window, mark, i), fires_at(readings(instants), window, mark, j)]
            0 <= i < j < instants.len() && fires_at(readings(instants), window, mark, i)
                && fires_at(readings(instants), window, mark, j) ==> epoch_hour(instants[i])
                != epoch_hour(instants[j]),
        forall|i: int|
            0 <= i < instants.len() && #[trigger] due_at(instants, window, mark, i)
                ==> exists|k: int|
                0 <= k <= i && #[trigger] fires_at(readings(instants), window, mark, k)
                    && epoch_hour(instants[k]) == epoch_hour(instants[i]),
{
    assert forall|i: int, j: int|
        #![trigger fires_at(readings(instants), window, mark, i), fires_at(readings(instants), window, mark, j)]
        0 <= i < j < instants.len() && fires_at(readings(instants), window, mark, i) && fires_at(
            readings(instants),
            window,
            mark,
            j,
        ) implies epoch_hour(instants[i]) != epoch_hour(instants[j]) by {
        lemma_at_most_once(instants, window, mark, i, j);
    }
    assert forall|i: int|
        0 <= i < instants.len() && #[trigger] due_at(
            instants,
            window,
            mark,
            i,
        ) implies exists|k: int|
        0 <= k <= i && #[trigger] fires_at(readings(instants), window, mark, k) && epoch_hour(
            instants[k],
        ) == epoch_hour(instants[i]) by {
        let k = lemma_at_least_once(instants, window, mark, i);
    }
}

/// At the start of every hour inside the window that a run passes through,
/// the hourly alarm sounds exactly once, and strikes the hour.
///
/// For any run of polls whose clock never runs backwards and that is steady:
/// the alarm sounds only on polls in minute zero of an hour inside the
/// window, with one burst per hour struck at 2000 Hz; it never sounds on two
/// polls of the same hour; and every hour inside the window that has a poll
/// in its minute zero has one on which the alarm sounds.
pub proof fn law_hourly_once_per_hour(instants: Seq<nat>, window: QuietHoursWindow)
    requires
        chronological(instants),
        steady(instants, window, 0),
    ensures
        forall|i: int|
            0 <= i < instants.len() && (#[trigger] hourly_at(instants, window, i)) is Some ==> {
                &&& minute_of(instants[i]) == 0
                &&& window.admits(hour_of(instants[i]) as u8)
                &&& hourly_at(instants, window, i) == Some(
                    AlarmCommand::PlayAlarm {
                        repeat_count: hour_of(instants[i]) as u8,
                        frequency_hz: 2000,
                    },
                )
            },
        forall|i: int, j: int|
            #![trigger hourly_at(instants, window, i), hourly_at(instants, window, j)]
            0 <= i < j < instants.len() && hourly_at(instants, window, i) is Some && hourly_at(
                instants,
                window,
                j,
            ) is Some ==> epoch_hour(instants[i]) != epoch_hour(instants[j]),
        forall|i: int|
            0 <= i < instants.len() && #[trigger] minute_of(instants[i]) == 0 && window.admits(
                hour_of(instants[i]) as u8,
            ) ==> exists|k: int|
                0 <= k <= i && (#[trigger] hourly_at(instants, window, k)) is Some && epoch_hour(
                    instants[k],
                ) == epoch_hour(instants[i]),
{
    let samples = readings(instants);
    lemma_once_per_hour(instants, window, 0);
    assert forall|i: int| 0 <= i < instants.len() implies (#[trigger] hourly_at(
        instants,
        window,
        i,
    )) is Some == fires_at(samples, window, 0, i) && due_at(instants, window, 0, i) == (minute_of(
        instants[i],
    ) == 0 && window.admits(hour_of(instants[i]) as u8)) by {
        lemma_decision(samples, window, i);
        lemma_reading(instants, i);
    }
    assert forall|i: int|
        0 <= i < instants.len() && (#[trigger] hourly_at(instants, window, i)) is Some implies {
        &&& minute_of(instants[i]) == 0
        &&& window.admits(hour_of(instants[i]) as u8)
        &&& hourly_at(instants, window, i) == Some(
            AlarmCommand::PlayAlarm { repeat_count: hour_of(instants[i]) as u8, frequency_hz: 2000 },
        )
    } by {
        lemma_decision(samples, window, i);
        lemma_reading(instants, i);
    }
    assert forall|i: int|
        0 <= i < instants.len() && #[trigger] minute_of(instants[i]) == 0 && window.admits(
            hour_of(instants[i]) as u8,
        ) implies exists|k: int|
        0 <= k <= i && (#[trigger] hourly_at(instants, window, k)) is Some && epoch_hour(
            instants[k],
        ) == epoch_hour(instants[i]) by {
        assert(due_at(instants, window, 0, i)) by {
            assert(hourly_at(instants, window, i) is Some == fires_at(samples, window, 0, i));
        }
        let k = choose|k: int|
            0 <= k <= i && #[trigger] fires_at(samples, window, 0, k) && epoch_hour(instants[k])
                == epoch_hour(instants[i]);
        assert(hourly_at(instants, window, k) is Some == fires_at(samples, window, 0, k));
    }
}

/// At ten minutes past every hour inside the window that a run passes
/// through, the ten-past alarm sounds exactly once.
///
/// For any run of polls whose clock never runs backwards and that is steady:
/// the alarm sounds only on polls in minute ten of an hour inside the window,
/// with three bursts at 2600 Hz; it never sounds on two polls of the same
/// hour; and every hour inside the window that has a poll in its minute ten
/// has one on which the alarm sounds.
pub proof fn law_ten_past_once_per_hour(instants: Seq<nat>, window: QuietHoursWindow)
    requires
        chronological(instants),
        steady(instants, window, 10),
    ensures
        forall|i: int|
            0 <= i < instants.len() && (#[trigger] ten_past_at(instants, window, i)) is Some ==> {
                &&& minute_of(instants[i]) == 10
                &&& window.admits(hour_of(instants[i]) as u8)
                &&& ten_past_at(instants, window, i) == Some(
                    AlarmCommand::PlayAlarm { repeat_count: 3, frequency_hz: 2600 },
                )
            },
        forall|i: int, j: int|
            #![trigger ten_past_at(instants, window, i), ten_past_at(instants, window, j)]
            0 <= i < j < instants.len() && ten_past_at(instants, window, i) is Some
                && ten_past_at(instants, window, j) is Some ==> epoch_hour(instants[i])
                != epoch_hour(instants[j]),
        forall|i: int|
            0 <= i < instants.len() && #[trigger] minute_of(instants[i]) == 10 && window.admits(
                hour_of(instants[i]) as u8,
            ) ==> exists|k: int|
                0 <= k <= i && (#[trigger] ten_past_at(instants, window, k)) is Some
                    && epoch_hour(instants[k]) == epoch_hour(instants[i]),
{
    let samples = readings(instants);
    lemma_once_per_hour(instants, window, 10);
    assert forall|i: int| 0 <= i < instants.len() implies (#[trigger] ten_past_at(
        instants,
        window,
        i,
    )) is Some == fires_at(samples, window, 10, i) && due_at(instants, window, 10, i) == (
    minute_of(instants[i]) == 10 && window.admits(hour_of(instants[i]) as u8)) by {
        lemma_decision(samples, window, i);
        lemma_reading(instants, i);
    }
    assert forall|i: int|
        0 <= i < instants.len() && (#[trigger] ten_past_at(instants, window, i)) is Some implies {
        &&& minute_of(instants[i]) == 10
        &&& window.admits(hour_of(instants[i]) as u8)
        &&& ten_past_at(instants, window, i) == Some(
            AlarmCommand::PlayAlarm { repeat_count: 3, frequency_hz: 2600 },
        )
    } by {
        lemma_decision(samples, window, i);
        lemma_reading(instants, i);
    }
    assert forall|i: int|
        0 <= i < instants.len() && #[trigger] minute_of(instants[i]) == 10 && window.admits(
            hour_of(instants[i]) as u8,
        ) implies exists|k: int|
        0 <= k <= i && (#[trigger] ten_past_at(instants, window, k)) is Some && epoch_hour(
            instants[k],
        ) == epoch_hour(instants[i]) by {
        assert(due_at(instants, window, 10, i)) by {
            assert(ten_past_at(instants, window, i) is Some == fires_at(samples, window, 10, i));
        }
        let k = choose|k: int|
            0 <= k <= i && #[trigger] fires_at(samples, window, 10, k) && epoch_hour(instants[k])
                == epoch_hour(instants[i]);
        assert(ten_past_at(instants, window, k) is Some == fires_at(samples, window, 10, k));
    }
}

/// Whatever was polled before, a reading fires an alarm if and only if it
/// falls on the rule's minute inside the window and the last such reading
/// before it, if there was one, was of another hour.
pub proof fn law_fires_on_change_of_hour(
    samples: Seq<WallClockSample>,
    window: QuietHoursWindow,
    i: int,
)
    requires
        0 <= i < samples.len(),
    ensures
        ({
            let last = latest_due(samples, window, 0, i);
            decision_at(samples, window, i).hourly is Some <==> due(samples[i], window, 0) && (
            last < 0 || samples[last].hours != samples[i].hours)
        }),
        ({
            let last = latest_due(samples, window, 10, i);
            decision_at(samples, window, i).ten_past is Some <==> due(samples[i], window, 10) && (
            last < 0 || samples[last].hours != samples[i].hours)
        }),
{
    lemma_decision(samples, window, i);
    lemma_marker_is_latest_due(samples, window, 0, i);
    lemma_marker_is_latest_due(samples, window, 10, i);
    lemma_latest_due(samples, window, 0, i);
    lemma_latest_due(samples, window, 10, i);
}

/// A marker that is set to an hour keeps its rule from firing for that hour
/// again, and stays as it is, until the rule fires for another hour.
pub proof fn law_marker_holds(
    marker: Option<u8>,
    sample: WallClockSample,
    window: QuietHoursWindow,
    mark: u8,
)
    requires
        marker == Some(sample.hours),
    ensures
        !fires(marker, sample, window, mark),
        marker_after(marker, sample, window, mark) == marker,
{
}

/// Outside the window nothing sounds and no marker moves, whatever the
/// state: a reading of an hour outside the window leaves both alarm rules as
/// they were.
pub proof fn law_silent_outside_window(
    state: ScheduleState,
    sample: WallClockSample,
    window: QuietHoursWindow,
)
    requires
        !window.admits(sample.hours),
    ensures
        state.evaluation_of(sample, window).hourly is None,
        state.evaluation_of(sample, window).ten_past is None,
        state.next_of(sample, window).last_hour_fired == state.last_hour_fired,
        state.next_of(sample, window).last_ten_min_fired == state.last_ten_min_fired,
{
}

/// With the window that the clock ships with, no alarm of either kind
/// sounds on any poll of a run in an hour before seven.
pub proof fn law_silent_before_seven(instants: Seq<nat>, i: int)
    requires
        0 <= i < instants.len(),
        hour_of(instants[i]) < 7,
    ensures
        hourly_at(instants, QuietHoursWindow::standard(), i) is None,
        ten_past_at(instants, QuietHoursWindow::standard(), i) is None,
{
    lemma_reading(instants, i);
    lemma_decision(readings(instants), QuietHoursWindow::standard(), i);
}

} // verus!
