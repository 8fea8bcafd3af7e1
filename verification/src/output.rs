//! The vocabulary shared by the rendering state machines and the loop that
//! drives the output line: what to do next, and how the last step ended.

use vstd::prelude::*;

verus! {

/// One of the two levels of the digital output line.
#[derive(Clone, Copy, Debug, PartialEq, Eq, Structural)]
pub enum Level {
    High,
    Low,
}

/// A primitive operation on the output line, the clock or the scheduler.
#[derive(Clone, Copy, Debug, PartialEq, Eq, Structural)]
pub enum OutputAction {
    /// Drive the line high.
    SetHigh,
    /// Drive the line low.
    SetLow,
    /// Remember the present instant as the start of the tone.
    StartClock,
    /// Read the microseconds elapsed since the start of the tone.
    ReadClock,
    /// Block for the given number of microseconds.
    SleepMicros { micros: u64 },
    /// Block for the given number of milliseconds.
    SleepMillis { millis: u64 },
}

/// How a primitive operation ended.
#[derive(Clone, Copy, Debug, PartialEq, Eq, Structural)]
pub enum OutputEvent {
    /// The operation was carried out and has nothing to report.
    Completed,
    /// The clock was read: microseconds elapsed since the start of the tone.
    Elapsed { micros: u64 },
    /// The output line could not be written.
    WriteFailed,
}

impl OutputAction {
    /// The write that drives the line to `level`.
    pub open spec fn write_of(level: Level) -> OutputAction {
        match level {
            Level::High => OutputAction::SetHigh,
            Level::Low => OutputAction::SetLow,
        }
    }

    /// Whether `event` is a possible outcome of this operation.
    pub open spec fn answered_by(self, event: OutputEvent) -> bool {
        match self {
            OutputAction::SetHigh | OutputAction::SetLow => event is Completed
                || event is WriteFailed,
            OutputAction::ReadClock => event is Elapsed,
            _ => event is Completed,
        }
    }

    /// The write that drives the line to `level`.
    pub fn write(level: Level) -> (action: OutputAction)
        ensures
            action == OutputAction::write_of(level),
    {
        match level {
            Level::High => OutputAction::SetHigh,
            Level::Low => OutputAction::SetLow,
        }
    }

    /// Whether `event` is a possible outcome of this operation.
    pub fn is_answered_by(&self, event: &OutputEvent) -> (answered: bool)
        ensures
            answered == self.answered_by(*event),
    {
        match self {
            OutputAction::SetHigh | OutputAction::SetLow => match event {
                OutputEvent::Completed | OutputEvent::WriteFailed => true,
                _ => false,
            },
            OutputAction::ReadClock => match event {
                OutputEvent::Elapsed { .. } => true,
                _ => false,
            },
            _ => match event {
                OutputEvent::Completed => true,
                _ => false,
            },
        }
    }
}

} // verus!
