//! Alarm commands: what the detector asks the actuator to play.

use vstd::prelude::*;

verus! {

/// Frequency of the alarm at the start of an hour.
pub const HOURLY_FREQUENCY_HZ: u32 = 2000;

/// Frequency of the alarm at ten minutes past an hour.
pub const TEN_PAST_FREQUENCY_HZ: u32 = 2600;

/// Number of bursts of the alarm at ten minutes past an hour.
pub const TEN_PAST_REPEAT_COUNT: u8 = 3;

/// A request to the actuator. It is handed over by value and is gone once
/// it has been rendered.
#[derive(Clone, Copy, Debug, PartialEq, Eq, Structural)]
pub enum AlarmCommand {
    /// Play `repeat_count` bursts at `frequency_hz`. Frequency zero stands
    /// for a plain on/off pulse without oscillation.
    PlayAlarm { repeat_count: u8, frequency_hz: u32 },
}

impl AlarmCommand {
    /// The alarm for the start of hour `hours`: one burst per hour struck.
    pub open spec fn hourly_of(hours: u8) -> AlarmCommand {
        AlarmCommand::PlayAlarm { repeat_count: hours, frequency_hz: 2000 }
    }

    /// The alarm for ten minutes past any hour.
    pub open spec fn ten_past_of() -> AlarmCommand {
        AlarmCommand::PlayAlarm { repeat_count: 3, frequency_hz: 2600 }
    }

    /// The alarm for the start of hour `hours`.
    pub fn hourly(hours: u8) -> (command: AlarmCommand)
        ensures
            command == AlarmCommand::hourly_of(hours),
    {
        AlarmCommand::PlayAlarm { repeat_count: hours, frequency_hz: HOURLY_FREQUENCY_HZ }
    }

    /// The alarm for ten minutes past any hour.
    pub fn ten_past() -> (command: AlarmCommand)
        ensures
            command == AlarmCommand::ten_past_of(),
    {
        AlarmCommand::PlayAlarm {
            repeat_count: TEN_PAST_REPEAT_COUNT,
            frequency_hz: TEN_PAST_FREQUENCY_HZ,
        }
    }

    /// Number of bursts asked for.
    pub fn repeat_count(&self) -> (count: u8)
        ensures
            count == self->repeat_count,
    {
        match self {
            AlarmCommand::PlayAlarm { repeat_count, .. } => *repeat_count,
        }
    }

    /// Frequency asked for.
    pub fn frequency_hz(&self) -> (frequency: u32)
        ensures
            frequency == self->frequency_hz,
    {
        match self {
            AlarmCommand::PlayAlarm { frequency_hz, .. } => *frequency_hz,
        }
    }
}

} // verus!
