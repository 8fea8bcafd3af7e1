//! Pattern player: sequences the tone bursts and pauses of one alarm command.

use vstd::prelude::*;
use crate::command::AlarmCommand;
use crate::config::TimingConstants;
use crate::output::{OutputAction, OutputEvent};
use crate::tone::{PulseTone, ToneRenderer, WaveTone};

verus! {

/// Where one repetition of the pattern stands.
#[derive(Clone, Copy, Debug, PartialEq, Eq, Structural)]
pub enum PatternPhase {
    /// The burst is a plain pulse under way.
    Pulse { pulse: PulseTone },
    /// The burst is a square wave under way.
    Wave { wave: WaveTone },
    /// The burst was abandoned, which is about to be reported.
    Report,
    /// The pause after the burst.
    BeepPause,
    /// The pause after the repetition.
    RepeatPause,
}

/// A pattern under way.
#[derive(Clone, Copy, Debug, PartialEq, Eq, Structural)]
pub struct ActivePattern {
    /// Repetitions still to begin once the present one is over.
    pub remaining: u8,
    pub frequency_hz: u32,
    pub timing: TimingConstants,
    pub phase: PatternPhase,
}

/// What the player asks for next.
#[derive(Clone, Copy, Debug, PartialEq, Eq, Structural)]
pub enum PatternStep {
    /// Carry out the operation and report its outcome.
    Perform { action: OutputAction },
    /// Record that a burst was abandoned, and report `Completed`.
    ReportToneFailure,
    /// Every repetition has been played.
    Finished,
}

/// The state of one alarm command being played.
#[derive(Clone, Copy, Debug, PartialEq, Eq, Structural)]
pub enum PatternPlayer {
    Playing { pattern: ActivePattern },
    Finished,
}

impl PatternPhase {
    /// The phase that a burst in state `tone` puts its repetition in: a burst
    /// rendered in full is followed by its pause, an abandoned one by the
    /// report.
    pub open spec fn of_tone(tone: ToneRenderer) -> PatternPhase {
        match tone {
            ToneRenderer::Pulse { pulse } => PatternPhase::Pulse { pulse },
            ToneRenderer::Wave { wave } => PatternPhase::Wave { wave },
            ToneRenderer::Finished => PatternPhase::BeepPause,
            ToneRenderer::Failed => PatternPhase::Report,
        }
    }

    fn from_tone(tone: ToneRenderer) -> (phase: PatternPhase)
        ensures
            phase == PatternPhase::of_tone(tone),
    {
        match tone {
            ToneRenderer::Pulse { pulse } => PatternPhase::Pulse { pulse },
            ToneRenderer::Wave { wave } => PatternPhase::Wave { wave },
            ToneRenderer::Finished => PatternPhase::BeepPause,
            ToneRenderer::Failed => PatternPhase::Report,
        }
    }
}

impl ActivePattern {
    /// The pattern at the start of a repetition, `remaining` more to follow.
    pub open spec fn repetition_of(remaining: u8, frequency_hz: u32, timing: TimingConstants)
        -> ActivePattern {
        ActivePattern {
            remaining,
            frequency_hz,
            timing,
            phase: PatternPhase::of_tone(
                ToneRenderer::start_of(frequency_hz, timing.beep_duration_ms, timing.min_sleep_us),
            ),
        }
    }

    /// What the player asks for in this state.
    pub open spec fn pending_of(self) -> PatternStep {
        match self.phase {
            PatternPhase::Pulse { pulse } => PatternStep::Perform { action: pulse.pending_of() },
            PatternPhase::Wave { wave } => PatternStep::Perform { action: wave.pending_of() },
            PatternPhase::Report => PatternStep::ReportToneFailure,
            PatternPhase::BeepPause => PatternStep::Perform {
                action: OutputAction::SleepMillis { millis: self.timing.beep_pause_ms },
            },
            PatternPhase::RepeatPause => PatternStep::Perform {
                action: OutputAction::SleepMillis { millis: self.timing.pattern_pause_ms },
            },
        }
    }

    /// The state that follows when the pending step ends with `event`. An
    /// event that the pending step cannot produce changes nothing.
    pub open spec fn next_of(self, event: OutputEvent) -> PatternPlayer {
        let onward = |phase: PatternPhase|
            PatternPlayer::Playing { pattern: ActivePattern { phase, ..self } };
        match self.phase {
            PatternPhase::Pulse { pulse } => onward(PatternPhase::of_tone(pulse.next_of(event))),
            PatternPhase::Wave { wave } => onward(PatternPhase::of_tone(wave.next_of(event))),
            PatternPhase::Report => if event is Completed {
                onward(PatternPhase::BeepPause)
            } else {
                onward(self.phase)
            },
            PatternPhase::BeepPause => if event is Completed {
                onward(PatternPhase::RepeatPause)
            } else {
                onward(self.phase)
            },
            PatternPhase::RepeatPause => if !(event is Completed) {
                onward(self.phase)
            } else if self.remaining == 0 {
                PatternPlayer::Finished
            } else {
                PatternPlayer::Playing {
                    pattern: ActivePattern::repetition_of(
                        (self.remaining - 1) as u8,
                        self.frequency_hz,
                        self.timing,
                    ),
                }
            },
        }
    }

    fn repetition(remaining: u8, frequency_hz: u32, timing: TimingConstants) -> (pattern:
        ActivePattern)
        ensures
            pattern == ActivePattern::repetition_of(remaining, frequency_hz, timing),
    {
        let tone = ToneRenderer::new(frequency_hz, timing.beep_duration_ms, timing.min_sleep_us);
        ActivePattern { remaining, frequency_hz, timing, phase: PatternPhase::from_tone(tone) }
    }

    fn onward(&self, phase: PatternPhase) -> (state: PatternPlayer)
        ensures
            state == (PatternPlayer::Playing { pattern: ActivePattern { phase, ..*self } }),
    {
        PatternPlayer::Playing {
            pattern: ActivePattern {
                remaining: self.remaining,
                frequency_hz: self.frequency_hz,
                timing: self.timing,
                phase,
            },
        }
    }

    /// What the player asks for in this state.
    pub fn pending(&self) -> (step: PatternStep)
        ensures
            step == self.pending_of(),
    {
        match self.phase {
            PatternPhase::Pulse { pulse } => PatternStep::Perform { action: pulse.pending() },
            PatternPhase::Wave { wave } => PatternStep::Perform { action: wave.pending() },
            PatternPhase::Report => PatternStep::ReportToneFailure,
            PatternPhase::BeepPause => PatternStep::Perform {
                action: OutputAction::SleepMillis { millis: self.timing.beep_pause_ms },
            },
            PatternPhase::RepeatPause => PatternStep::Perform {
                action: OutputAction::SleepMillis { millis: self.timing.pattern_pause_ms },
            },
        }
    }

    /// The state that follows when the pending step ends with `event`.
    pub fn next(&self, event: OutputEvent) -> (state: PatternPlayer)
        ensures
            state == self.next_of(event),
    {
        let completed = match event {
            OutputEvent::Completed => true,
            _ => false,
        };
        match self.phase {
            PatternPhase::Pulse { pulse } => self.onward(
                PatternPhase::from_tone(pulse.next(event)),
            ),
            PatternPhase::Wave { wave } => self.onward(PatternPhase::from_tone(wave.next(event))),
            PatternPhase::Report => if completed {
                self.onward(PatternPhase::BeepPause)
            } else {
                self.onward(self.phase)
            },
            PatternPhase::BeepPause => if completed {
                self.onward(PatternPhase::RepeatPause)
            } else {
                self.onward(self.phase)
            },
            PatternPhase::RepeatPause => if !completed {
                self.onward(self.phase)
            } else if self.remaining == 0 {
                PatternPlayer::Finished
            } else {
                PatternPlayer::Playing {
                    pattern: ActivePattern::repetition(
                        self.remaining - 1,
                        self.frequency_hz,
                        self.timing,
                    ),
                }
            },
        }
    }
}

impl PatternPlayer {
    /// The state in which `command` begins to play: with nothing to repeat
    /// the pattern is over before it starts.
    pub open spec fn start_of(command: AlarmCommand, timing: TimingConstants) -> PatternPlayer {
        if command->repeat_count == 0 {
            PatternPlayer::Finished
        } else {
            PatternPlayer::Playing {
                pattern: ActivePattern::repetition_of(
                    (command->repeat_count - 1) as u8,
                    command->frequency_hz,
                    timing,
                ),
            }
        }
    }

    /// What the player asks for in this state.
    pub open spec fn pending_of(self) -> PatternStep {
        match self {
            PatternPlayer::Playing { pattern } => pattern.pending_of(),
            PatternPlayer::Finished => PatternStep::Finished,
        }
    }

    /// The state that follows when the pending step ends with `event`.
    pub open spec fn next_of(self, event: OutputEvent) -> PatternPlayer {
        match self {
            PatternPlayer::Playing { pattern } => pattern.next_of(event),
            PatternPlayer::Finished => PatternPlayer::Finished,
        }
    }

    /// Begins to play `command`: for each repetition one tone burst of the
    /// configured length, the pause after the burst, and the pause after the
    /// repetition.
    pub fn new(command: AlarmCommand, timing: TimingConstants) -> (state: PatternPlayer)
        ensures
            state == PatternPlayer::start_of(command, timing),
            command->repeat_count == 0 ==> state.pending_of() == PatternStep::Finished,
    {
        let repeat_count = command.repeat_count();
        if repeat_count == 0 {
            PatternPlayer::Finished
        } else {
            PatternPlayer::Playing {
                pattern: ActivePattern::repetition(
                    repeat_count - 1,
                    command.frequency_hz(),
                    timing,
                ),
            }
        }
    }

    /// What the player asks for in this state.
    pub fn pending(&self) -> (step: PatternStep)
        ensures
            step == self.pending_of(),
    {
        match self {
            PatternPlayer::Playing { pattern } => pattern.pending(),
            PatternPlayer::Finished => PatternStep::Finished,
        }
    }

    /// Takes in the outcome of the pending step and names the next one.
    pub fn step(&mut self, event: OutputEvent) -> (step: PatternStep)
        ensures
            *final(self) == old(self).next_of(event),
            step == final(self).pending_of(),
    {
        let next = match self {
            PatternPlayer::Playing { pattern } => pattern.next(event),
            PatternPlayer::Finished => PatternPlayer::Finished,
        };
        *self = next;
        next.pending()
    }
}

} // verus!
