//! Schedule evaluator: decides, poll by poll, whether an alarm is due.
//!
//! Two rules are evaluated independently of each other: one at the start of
//! each hour and one at ten minutes past. Each keeps a marker of the hour it
//! last fired for, so that the many polls that fall into the same minute fire
//! once. A third rule, with a marker of its own, says when a status line is
//! due.

use vstd::prelude::*;
use crate::clock::WallClockSample;
use crate::command::AlarmCommand;
use crate::config::QuietHoursWindow;

verus! {

/// Minute of the hour at which the hourly alarm fires.
pub const HOURLY_MINUTE: u8 = 0;

/// Minute of the hour at which the ten-past alarm fires.
pub const TEN_PAST_MINUTE: u8 = 10;

/// Length in minutes of the interval that gets one status line.
pub const STATUS_INTERVAL_MINUTES: u16 = 5;

/// Whether `sample` falls on the minute `mark` of an hour in which alarms
/// sound.
pub open spec fn due(sample: WallClockSample, window: QuietHoursWindow, mark: u8) -> bool {
    sample.minutes == mark && window.admits(sample.hours)
}

/// Whether the rule for minute `mark` fires on `sample`, its marker being
/// `marker`.
pub open spec fn fires(
    marker: Option<u8>,
    sample: WallClockSample,
    window: QuietHoursWindow,
    mark: u8,
) -> bool {
    due(sample, window, mark) && marker != Some(sample.hours)
}

/// The marker of the rule for minute `mark` once it has seen `sample`: the
/// hour it fired for, or the marker as it was.
pub open spec fn marker_after(
    marker: Option<u8>,
    sample: WallClockSample,
    window: QuietHoursWindow,
    mark: u8,
) -> Option<u8> {
    if fires(marker, sample, window, mark) {
        Some(sample.hours)
    } else {
        marker
    }
}

/// Number of the five-minute interval of the day that `sample` falls in.
pub open spec fn bucket_of(sample: WallClockSample) -> int {
    (sample.hours * 60 + sample.minutes) / 5
}

/// Whether a status line is due on `sample`, the interval last reported
/// being `marker`.
pub open spec fn status_is_due(marker: Option<u16>, sample: WallClockSample) -> bool {
    sample.minutes % 5 == 0 && marker != Some(bucket_of(sample) as u16)
}

/// The markers of the three rules. Owned by the detection loop alone.
#[derive(Clone, Copy, Debug, PartialEq, Eq, Structural)]
pub struct ScheduleState {
    /// Hour that the hourly alarm last fired for.
    pub last_hour_fired: Option<u8>,
    /// Hour that the ten-past alarm last fired for.
    pub last_ten_min_fired: Option<u8>,
    /// Five-minute interval that the last status line was for.
    pub last_log_bucket: Option<u16>,
}

/// What one poll decided.
#[derive(Clone, Copy, Debug, PartialEq, Eq, Structural)]
pub struct Evaluation {
    /// The hourly alarm, if it fires.
    pub hourly: Option<AlarmCommand>,
    /// The ten-past alarm, if it fires.
    pub ten_past: Option<AlarmCommand>,
    /// Whether a status line is due.
    pub status_due: bool,
}

impl Evaluation {
    /// The alarm that fired, if one did. The two rules never fire together.
    pub open spec fn alarm_of(self) -> Option<AlarmCommand> {
        if self.hourly is Some {
            self.hourly
        } else {
            self.ten_past
        }
    }

    /// The alarm that fired, if one did.
    pub fn alarm(&self) -> (alarm: Option<AlarmCommand>)
        ensures
            alarm == self.alarm_of(),
    {
        match self.hourly {
            Some(command) => Some(command),
            None => self.ten_past,
        }
    }
}

impl ScheduleState {
    /// The state at startup: nothing has fired yet.
    pub open spec fn fresh() -> ScheduleState {
        ScheduleState { last_hour_fired: None, last_ten_min_fired: None, last_log_bucket: None }
    }

    /// Every marker names an hour, or an interval, of a 24-hour day.
    pub open spec fn wf(self) -> bool {
        &&& self.last_hour_fired matches Some(h) ==> h < 24
        &&& self.last_ten_min_fired matches Some(h) ==> h < 24
        &&& self.last_log_bucket matches Some(b) ==> b < 288
    }

    /// What a poll that reads `sample` decides in this state.
    pub open spec fn evaluation_of(self, sample: WallClockSample, window: QuietHoursWindow)
        -> Evaluation {
        Evaluation {
            hourly: if fires(self.last_hour_fired, sample, window, 0) {
                Some(AlarmCommand::hourly_of(sample.hours))
            } else {
                None
            },
            ten_past: if fires(self.last_ten_min_fired, sample, window, 10) {
                Some(AlarmCommand::ten_past_of())
            } else {
                None
            },
            status_due: status_is_due(self.last_log_bucket, sample),
        }
    }

    /// The state after a poll that reads `sample`.
    pub open spec fn next_of(self, sample: WallClockSample, window: QuietHoursWindow)
        -> ScheduleState {
        ScheduleState {
            last_hour_fired: marker_after(self.last_hour_fired, sample, window, 0),
            last_ten_min_fired: marker_after(self.last_ten_min_fired, sample, window, 10),
            last_log_bucket: if status_is_due(self.last_log_bucket, sample) {
                Some(bucket_of(sample) as u16)
            } else {
                self.last_log_bucket
            },
        }
    }

    /// The state at startup: nothing has fired yet.
    pub fn new() -> (state: ScheduleState)
        ensures
            state == ScheduleState::fresh(),
            state.wf(),
    {
        ScheduleState { last_hour_fired: None, last_ten_min_fired: None, last_log_bucket: None }
    }

    /// Takes in one wall-clock reading. An alarm fires if and only if the
    /// reading falls on the rule's minute, in an hour inside the window, and
    /// the rule has not fired for that hour since it last fired for another.
    /// A rule that fires records the hour; one that does not, in or out of
    /// the window, leaves its marker alone.
    pub fn evaluate(&mut self, sample: WallClockSample, window: QuietHoursWindow) -> (evaluation:
        Evaluation)
        ensures
            evaluation == old(self).evaluation_of(sample, window),
            *final(self) == old(self).next_of(sample, window),
            !window.admits(sample.hours) ==> evaluation.hourly is None && evaluation.ten_past
                is None,
            evaluation.hourly is None || evaluation.ten_past is None,
            old(self).wf() && sample.wf() ==> final(self).wf(),
    {
        let in_window = window.contains(sample.hours);
        let hourly = if sample.minutes == HOURLY_MINUTE && in_window && !holds(
            self.last_hour_fired,
            sample.hours,
        ) {
            self.last_hour_fired = Some(sample.hours);
            Some(AlarmCommand::hourly(sample.hours))
        } else {
            None
        };
        let ten_past = if sample.minutes == TEN_PAST_MINUTE && in_window && !holds(
            self.last_ten_min_fired,
            sample.hours,
        ) {
            self.last_ten_min_fired = Some(sample.hours);
            Some(AlarmCommand::ten_past())
        } else {
            None
        };
        let bucket: u16 = ((sample.hours as u16) * 60 + (sample.minutes as u16))
            / STATUS_INTERVAL_MINUTES;
        let reported = match self.last_log_bucket {
            Some(last) => last == bucket,
            None => false,
        };
        let status_due = sample.minutes % 5 == 0 && !reported;
        if status_due {
            self.last_log_bucket = Some(bucket);
        }
        Evaluation { hourly, ten_past, status_due }
    }
}

/// Whether `marker` is set to `hours`.
fn holds(marker: Option<u8>, hours: u8) -> (set: bool)
    ensures
        set == (marker == Some(hours)),
{
    match marker {
        Some(last) => last == hours,
        None => false,
    }
}

impl Default for ScheduleState {
    fn default() -> (state: ScheduleState)
        ensures
            state == ScheduleState::fresh(),
    {
        ScheduleState::new()
    }
}

} // verus!
