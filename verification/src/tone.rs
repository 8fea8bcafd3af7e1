//! Tone generator: renders one tone as a square wave on the output line.
//!
//! The generator decides; it performs nothing itself. It names the next
//! primitive operation, the driver carries it out and reports how it ended,
//! and the generator moves on from there.

use vstd::prelude::*;
use crate::output::{Level, OutputAction, OutputEvent};

verus! {

/// Microseconds in half a second: a half period is this over the frequency.
pub const HALF_SECOND_US: u64 = 500_000;

/// Microseconds in a millisecond.
pub const MICROS_PER_MILLI: u64 = 1000;

/// Time the line is held at one level, for a frequency above zero.
pub open spec fn half_period_of(frequency_hz: u32) -> nat
    recommends
        frequency_hz > 0,
{
    (500_000int / (frequency_hz as int)) as nat
}

/// Length of a tone in microseconds.
pub open spec fn duration_us_of(duration_ms: u64) -> nat {
    (duration_ms * 1000) as nat
}

/// Time the line is held at one level, for a frequency above zero.
pub fn half_period_us(frequency_hz: u32) -> (half_period: u64)
    requires
        frequency_hz > 0,
    ensures
        half_period == half_period_of(frequency_hz),
        half_period <= 500_000,
{
    HALF_SECOND_US / (frequency_hz as u64)
}

/// Where a plain pulse (frequency zero) stands.
#[derive(Clone, Copy, Debug, PartialEq, Eq, Structural)]
pub enum PulseStep {
    /// The line is about to be driven high.
    Raise,
    /// The line is high and is held there for the whole tone.
    Hold,
    /// The line is about to be driven low.
    Lower,
}

/// Where a square wave (frequency above zero) stands.
#[derive(Clone, Copy, Debug, PartialEq, Eq, Structural)]
pub enum WaveStep {
    /// The start of the tone is about to be recorded.
    ClockStart,
    /// The clock is read to decide whether another cycle begins.
    DurationCheck,
    /// The line is about to be driven to the level.
    Write { level: Level },
    /// The level is held by a blocking sleep.
    Sleep { level: Level },
    /// The level is held by a busy wait, whose first clock reading is due.
    SpinStart { level: Level },
    /// The level is held by a busy wait until the clock reaches `target`.
    Spin { level: Level, target: u128 },
}

/// A plain pulse under way.
#[derive(Clone, Copy, Debug, PartialEq, Eq, Structural)]
pub struct PulseTone {
    pub duration_ms: u64,
    pub step: PulseStep,
}

/// A square wave under way.
#[derive(Clone, Copy, Debug, PartialEq, Eq, Structural)]
pub struct WaveTone {
    /// Microseconds at each level.
    pub half_period_us: u64,
    pub duration_ms: u64,
    /// Shortest wait that is left to a blocking sleep; shorter ones spin.
    pub min_sleep_us: u64,
    pub step: WaveStep,
}

/// What the generator asks for next.
#[derive(Clone, Copy, Debug, PartialEq, Eq, Structural)]
pub enum ToneStep {
    /// Carry out the operation and report its outcome.
    Perform { action: OutputAction },
    /// The tone has been rendered in full.
    Finished,
    /// A write to the output line failed and the tone was abandoned.
    Failed,
}

/// The state of one tone being rendered.
#[derive(Clone, Copy, Debug, PartialEq, Eq, Structural)]
pub enum ToneRenderer {
    Pulse { pulse: PulseTone },
    Wave { wave: WaveTone },
    Finished,
    Failed,
}

impl WaveTone {
    /// The state in which `level` is held for one half period.
    pub open spec fn hold_of(self, level: Level) -> WaveStep {
        if self.half_period_us >= self.min_sleep_us {
            WaveStep::Sleep { level }
        } else {
            WaveStep::SpinStart { level }
        }
    }

    /// The state that follows a completed half period at `level`.
    pub open spec fn after_hold_of(level: Level) -> WaveStep {
        match level {
            Level::High => WaveStep::Write { level: Level::Low },
            Level::Low => WaveStep::DurationCheck,
        }
    }

    /// The operation that the wave waits on.
    pub open spec fn pending_of(self) -> OutputAction {
        match self.step {
            WaveStep::ClockStart => OutputAction::StartClock,
            WaveStep::DurationCheck => OutputAction::ReadClock,
            WaveStep::Write { level } => OutputAction::write_of(level),
            WaveStep::Sleep { level } => OutputAction::SleepMicros { micros: self.half_period_us },
            WaveStep::SpinStart { level } => OutputAction::ReadClock,
            WaveStep::Spin { level, target } => OutputAction::ReadClock,
        }
    }

    /// The state that follows when the pending operation ends with `event`.
    pub open spec fn next_of(self, event: OutputEvent) -> ToneRenderer {
        let onward = |step: WaveStep| ToneRenderer::Wave { wave: WaveTone { step, ..self } };
        match (self.step, event) {
            (WaveStep::ClockStart, OutputEvent::Completed) => onward(WaveStep::DurationCheck),
            (WaveStep::DurationCheck, OutputEvent::Elapsed { micros }) => {
                if micros < duration_us_of(self.duration_ms) {
                    onward(WaveStep::Write { level: Level::High })
                } else {
                    ToneRenderer::Finished
                }
            },
            (WaveStep::Write { level }, OutputEvent::Completed) => onward(self.hold_of(level)),
            (WaveStep::Write { level }, OutputEvent::WriteFailed) => ToneRenderer::Failed,
            (WaveStep::Sleep { level }, OutputEvent::Completed) => onward(
                WaveTone::after_hold_of(level),
            ),
            (WaveStep::SpinStart { level }, OutputEvent::Elapsed { micros }) => onward(
                WaveStep::Spin { level, target: (micros + self.half_period_us) as u128 },
            ),
            (WaveStep::Spin { level, target }, OutputEvent::Elapsed { micros }) => {
                if micros < target {
                    onward(self.step)
                } else {
                    onward(WaveTone::after_hold_of(level))
                }
            },
            _ => ToneRenderer::Wave { wave: self },
        }
    }

    fn hold(&self, level: Level) -> (step: WaveStep)
        ensures
            step == self.hold_of(level),
    {
        if self.half_period_us >= self.min_sleep_us {
            WaveStep::Sleep { level }
        } else {
            WaveStep::SpinStart { level }
        }
    }

    fn after_hold(level: Level) -> (step: WaveStep)
        ensures
            step == WaveTone::after_hold_of(level),
    {
        match level {
            Level::High => WaveStep::Write { level: Level::Low },
            Level::Low => WaveStep::DurationCheck,
        }
    }

    fn onward(&self, step: WaveStep) -> (state: ToneRenderer)
        ensures
            state == (ToneRenderer::Wave { wave: WaveTone { step, ..*self } }),
    {
        ToneRenderer::Wave {
            wave: WaveTone {
                half_period_us: self.half_period_us,
                duration_ms: self.duration_ms,
                min_sleep_us: self.min_sleep_us,
                step,
            },
        }
    }

    /// The operation that the wave waits on.
    pub fn pending(&self) -> (action: OutputAction)
        ensures
            action == self.pending_of(),
    {
        match self.step {
            WaveStep::ClockStart => OutputAction::StartClock,
            WaveStep::DurationCheck => OutputAction::ReadClock,
            WaveStep::Write { level } => OutputAction::write(level),
            WaveStep::Sleep { .. } => OutputAction::SleepMicros { micros: self.half_period_us },
            WaveStep::SpinStart { .. } => OutputAction::ReadClock,
            WaveStep::Spin { .. } => OutputAction::ReadClock,
        }
    }

    /// The state that follows when the pending operation ends with `event`.
    pub fn next(&self, event: OutputEvent) -> (state: ToneRenderer)
        ensures
            state == self.next_of(event),
    {
        match self.step {
            WaveStep::ClockStart => match event {
                OutputEvent::Completed => self.onward(WaveStep::DurationCheck),
                _ => ToneRenderer::Wave { wave: *self },
            },
            WaveStep::DurationCheck => match event {
                OutputEvent::Elapsed { micros } => {
                    if (micros as u128) < (self.duration_ms as u128) * 1000 {
                        self.onward(WaveStep::Write { level: Level::High })
                    } else {
                        ToneRenderer::Finished
                    }
                },
                _ => ToneRenderer::Wave { wave: *self },
            },
            WaveStep::Write { level } => match event {
                OutputEvent::Completed => self.onward(self.hold(level)),
                OutputEvent::WriteFailed => ToneRenderer::Failed,
                _ => ToneRenderer::Wave { wave: *self },
            },
            WaveStep::Sleep { level } => match event {
                OutputEvent::Completed => self.onward(WaveTone::after_hold(level)),
                _ => ToneRenderer::Wave { wave: *self },
            },
            WaveStep::SpinStart { level } => match event {
                OutputEvent::Elapsed { micros } => self.onward(
                    WaveStep::Spin {
                        level,
                        target: (micros as u128) + (self.half_period_us as u128),
                    },
                ),
                _ => ToneRenderer::Wave { wave: *self },
            },
            WaveStep::Spin { level, target } => match event {
                OutputEvent::Elapsed { micros } => {
                    if (micros as u128) < target {
                        self.onward(self.step)
                    } else {
                        self.onward(WaveTone::after_hold(level))
                    }
                },
                _ => ToneRenderer::Wave { wave: *self },
            },
        }
    }
}

impl PulseTone {
    /// The operation that the pulse waits on.
    pub open spec fn pending_of(self) -> OutputAction {
        match self.step {
            PulseStep::Raise => OutputAction::SetHigh,
            PulseStep::Hold => OutputAction::SleepMillis { millis: self.duration_ms },
            PulseStep::Lower => OutputAction::SetLow,
        }
    }

    /// The state that follows when the pending operation ends with `event`.
    pub open spec fn next_of(self, event: OutputEvent) -> ToneRenderer {
        let onward = |step: PulseStep| ToneRenderer::Pulse { pulse: PulseTone { step, ..self } };
        match (self.step, event) {
            (PulseStep::Raise, OutputEvent::Completed) => onward(PulseStep::Hold),
            (PulseStep::Raise, OutputEvent::WriteFailed) => ToneRenderer::Failed,
            (PulseStep::Hold, OutputEvent::Completed) => onward(PulseStep::Lower),
            (PulseStep::Lower, OutputEvent::Completed) => ToneRenderer::Finished,
            (PulseStep::Lower, OutputEvent::WriteFailed) => ToneRenderer::Failed,
            _ => ToneRenderer::Pulse { pulse: self },
        }
    }

    /// The operation that the pulse waits on.
    pub fn pending(&self) -> (action: OutputAction)
        ensures
            action == self.pending_of(),
    {
        match self.step {
            PulseStep::Raise => OutputAction::SetHigh,
            PulseStep::Hold => OutputAction::SleepMillis { millis: self.duration_ms },
            PulseStep::Lower => OutputAction::SetLow,
        }
    }

    /// The state that follows when the pending operation ends with `event`.
    pub fn next(&self, event: OutputEvent) -> (state: ToneRenderer)
        ensures
            state == self.next_of(event),
    {
        let duration_ms = self.duration_ms;
        match self.step {
            PulseStep::Raise => match event {
                OutputEvent::Completed => ToneRenderer::Pulse {
                    pulse: PulseTone { duration_ms, step: PulseStep::Hold },
                },
                OutputEvent::WriteFailed => ToneRenderer::Failed,
                _ => ToneRenderer::Pulse { pulse: *self },
            },
            PulseStep::Hold => match event {
                OutputEvent::Completed => ToneRenderer::Pulse {
                    pulse: PulseTone { duration_ms, step: PulseStep::Lower },
                },
                _ => ToneRenderer::Pulse { pulse: *self },
            },
            PulseStep::Lower => match event {
                OutputEvent::Completed => ToneRenderer::Finished,
                OutputEvent::WriteFailed => ToneRenderer::Failed,
                _ => ToneRenderer::Pulse { pulse: *self },
            },
        }
    }
}

impl ToneRenderer {
    /// The state in which a tone of the given frequency and length begins.
    pub open spec fn start_of(frequency_hz: u32, duration_ms: u64, min_sleep_us: u64)
        -> ToneRenderer {
        if frequency_hz == 0 {
            ToneRenderer::Pulse { pulse: PulseTone { duration_ms, step: PulseStep::Raise } }
        } else {
            ToneRenderer::Wave {
                wave: WaveTone {
                    half_period_us: half_period_of(frequency_hz) as u64,
                    duration_ms,
                    min_sleep_us,
                    step: WaveStep::ClockStart,
                },
            }
        }
    }

    /// What the generator asks for in this state.
    pub open spec fn pending_of(self) -> ToneStep {
        match self {
            ToneRenderer::Pulse { pulse } => ToneStep::Perform { action: pulse.pending_of() },
            ToneRenderer::Wave { wave } => ToneStep::Perform { action: wave.pending_of() },
            ToneRenderer::Finished => ToneStep::Finished,
            ToneRenderer::Failed => ToneStep::Failed,
        }
    }

    /// The state that follows when the pending operation ends with `event`.
    /// An event that the pending operation cannot produce changes nothing,
    /// and neither does any event once the tone has ended.
    pub open spec fn next_of(self, event: OutputEvent) -> ToneRenderer {
        match self {
            ToneRenderer::Pulse { pulse } => pulse.next_of(event),
            ToneRenderer::Wave { wave } => wave.next_of(event),
            ToneRenderer::Finished => ToneRenderer::Finished,
            ToneRenderer::Failed => ToneRenderer::Failed,
        }
    }

    /// Whether the tone has ended, rendered in full or abandoned.
    pub open spec fn ended(self) -> bool {
        self is Finished || self is Failed
    }

    /// Begins a tone. Frequency zero gives a plain pulse: high for the whole
    /// duration, then low. Any other frequency gives a square wave whose half
    /// periods are slept through where they reach `min_sleep_us`, and spun
    /// through where they are shorter.
    pub fn new(frequency_hz: u32, duration_ms: u64, min_sleep_us: u64) -> (state: ToneRenderer)
        ensures
            state == ToneRenderer::start_of(frequency_hz, duration_ms, min_sleep_us),
    {
        if frequency_hz == 0 {
            ToneRenderer::Pulse { pulse: PulseTone { duration_ms, step: PulseStep::Raise } }
        } else {
            ToneRenderer::Wave {
                wave: WaveTone {
                    half_period_us: half_period_us(frequency_hz),
                    duration_ms,
                    min_sleep_us,
                    step: WaveStep::ClockStart,
                },
            }
        }
    }

    /// What the generator asks for in this state.
    pub fn pending(&self) -> (step: ToneStep)
        ensures
            step == self.pending_of(),
    {
        match self {
            ToneRenderer::Pulse { pulse } => ToneStep::Perform { action: pulse.pending() },
            ToneRenderer::Wave { wave } => ToneStep::Perform { action: wave.pending() },
            ToneRenderer::Finished => ToneStep::Finished,
            ToneRenderer::Failed => ToneStep::Failed,
        }
    }

    /// Takes in the outcome of the pending operation and names the next one.
    pub fn step(&mut self, event: OutputEvent) -> (step: ToneStep)
        ensures
            *final(self) == old(self).next_of(event),
            step == final(self).pending_of(),
    {
        let next = match self {
            ToneRenderer::Pulse { pulse } => pulse.next(event),
            ToneRenderer::Wave { wave } => wave.next(event),
            ToneRenderer::Finished => ToneRenderer::Finished,
            ToneRenderer::Failed => ToneRenderer::Failed,
        };
        *self = next;
        next.pending()
    }
}

} // verus!
