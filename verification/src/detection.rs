//! Detection loop: one round samples the clock, lets the schedule evaluator
//! decide, and puts what fired on the command channel.

use vstd::prelude::*;
use crate::channel::{ChannelModel, CommandChannel};
use crate::clock::WallClockSample;
use crate::config::QuietHoursWindow;
use crate::schedule::{Evaluation, ScheduleState};

verus! {

/// What one round of the loop did.
#[derive(Clone, Copy, Debug, PartialEq, Eq, Structural)]
pub struct Detection {
    /// The reading that the round was made on.
    pub sample: WallClockSample,
    /// What the evaluator decided.
    pub evaluation: Evaluation,
    /// Whether the channel refused an alarm that fired. The alarm is then
    /// lost; the schedule goes on as if it had sounded.
    pub send_failed: bool,
}

/// The channel after a round that decided `evaluation`.
pub open spec fn channel_after(channel: ChannelModel, evaluation: Evaluation) -> ChannelModel {
    match evaluation.alarm_of() {
        Some(command) => channel.after_send(command),
        None => channel,
    }
}

/// One round of the detection loop at the instant `epoch_seconds`.
///
/// The markers move on whether or not the channel takes the alarm: a refused
/// alarm is reported and never sent again.
pub fn detect(
    state: &mut ScheduleState,
    channel: &mut CommandChannel,
    window: QuietHoursWindow,
    epoch_seconds: u64,
) -> (detection: Detection)
    ensures
        detection.sample == WallClockSample::of_epoch(epoch_seconds as nat),
        detection.evaluation == old(state).evaluation_of(detection.sample, window),
        *final(state) == old(state).next_of(detection.sample, window),
        final(channel)@ == channel_after(old(channel)@, detection.evaluation),
        detection.send_failed == (detection.evaluation.alarm_of() is Some && !old(
            channel,
        )@.accepts()),
        old(state).wf() ==> final(state).wf(),
{
    let sample = WallClockSample::from_epoch_seconds(epoch_seconds);
    let evaluation = state.evaluate(sample, window);
    let mut send_failed = false;
    if let Some(command) = evaluation.hourly {
        if channel.send(command).is_err() {
            send_failed = true;
        }
    }
    if let Some(command) = evaluation.ten_past {
        if channel.send(command).is_err() {
            send_failed = true;
        }
    }
    Detection { sample, evaluation, send_failed }
}

} // verus!
