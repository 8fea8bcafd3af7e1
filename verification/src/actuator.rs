//! Tone actuator: the worker that takes commands off the channel and plays
//! them, one at a time and each to its end.

use vstd::prelude::*;
use crate::command::AlarmCommand;
use crate::config::TimingConstants;
use crate::output::{OutputAction, OutputEvent};
use crate::pattern::{ActivePattern, PatternPlayer, PatternStep};

verus! {

/// What happened since the actuator last asked for something.
#[derive(Clone, Copy, Debug, PartialEq, Eq, Structural)]
pub enum ActuatorEvent {
    /// The step asked for ended with this outcome.
    Output { event: OutputEvent },
    /// A command came off the channel.
    Received { command: AlarmCommand },
    /// The channel is closed and holds nothing more.
    ChannelClosed,
}

/// What the actuator asks for next.
#[derive(Clone, Copy, Debug, PartialEq, Eq, Structural)]
pub enum ActuatorStep {
    /// Block on the channel until a command arrives or the channel closes.
    Receive,
    /// Carry out the operation and report its outcome.
    Perform { action: OutputAction },
    /// Record that a burst was abandoned, and report `Completed`.
    ReportToneFailure,
    /// Leave the worker loop.
    Exit,
}

/// Whether the worker waits, plays or has stopped.
#[derive(Clone, Copy, Debug, PartialEq, Eq, Structural)]
pub enum ActuatorState {
    /// No pattern is playing; the next command is awaited.
    Waiting,
    /// A command is being played.
    Playing { pattern: ActivePattern },
    /// The channel was closed; the worker is over.
    Stopped,
}

/// The worker that owns the output line.
#[derive(Clone, Copy, Debug, PartialEq, Eq, Structural)]
pub struct ToneActuator {
    pub timing: TimingConstants,
    pub state: ActuatorState,
}

impl ActuatorState {
    /// The worker's state while the player is in state `player`: when the
    /// pattern is over, the worker waits for the next command.
    pub open spec fn of_player(player: PatternPlayer) -> ActuatorState {
        match player {
            PatternPlayer::Playing { pattern } => ActuatorState::Playing { pattern },
            PatternPlayer::Finished => ActuatorState::Waiting,
        }
    }

    fn from_player(player: PatternPlayer) -> (state: ActuatorState)
        ensures
            state == ActuatorState::of_player(player),
    {
        match player {
            PatternPlayer::Playing { pattern } => ActuatorState::Playing { pattern },
            PatternPlayer::Finished => ActuatorState::Waiting,
        }
    }
}

impl ToneActuator {
    /// The worker before its first command.
    pub open spec fn start_of(timing: TimingConstants) -> ToneActuator {
        ToneActuator { timing, state: ActuatorState::Waiting }
    }

    /// What the worker asks for in this state.
    pub open spec fn pending_of(self) -> ActuatorStep {
        match self.state {
            ActuatorState::Waiting => ActuatorStep::Receive,
            ActuatorState::Playing { pattern } => match pattern.pending_of() {
                PatternStep::Perform { action } => ActuatorStep::Perform { action },
                PatternStep::ReportToneFailure => ActuatorStep::ReportToneFailure,
                PatternStep::Finished => ActuatorStep::Receive,
            },
            ActuatorState::Stopped => ActuatorStep::Exit,
        }
    }

    /// The state that follows `event`. While it waits, the worker takes a
    /// command or learns that the channel is closed; while it plays, it takes
    /// the outcome of the step it asked for. Anything else changes nothing:
    /// a pattern under way is never interrupted.
    pub open spec fn next_of(self, event: ActuatorEvent) -> ToneActuator {
        let state = match (self.state, event) {
            (ActuatorState::Waiting, ActuatorEvent::Received { command }) => {
                ActuatorState::of_player(PatternPlayer::start_of(command, self.timing))
            },
            (ActuatorState::Waiting, ActuatorEvent::ChannelClosed) => ActuatorState::Stopped,
            (ActuatorState::Playing { pattern }, ActuatorEvent::Output { event }) => {
                ActuatorState::of_player(pattern.next_of(event))
            },
            _ => self.state,
        };
        ToneActuator { state, ..self }
    }

    /// The worker before its first command.
    pub fn new(timing: TimingConstants) -> (actuator: ToneActuator)
        ensures
            actuator == ToneActuator::start_of(timing),
            actuator.pending_of() == ActuatorStep::Receive,
    {
        ToneActuator { timing, state: ActuatorState::Waiting }
    }

    /// What the worker asks for in this state.
    pub fn pending(&self) -> (step: ActuatorStep)
        ensures
            step == self.pending_of(),
    {
        match self.state {
            ActuatorState::Waiting => ActuatorStep::Receive,
            ActuatorState::Playing { pattern } => match pattern.pending() {
                PatternStep::Perform { action } => ActuatorStep::Perform { action },
                PatternStep::ReportToneFailure => ActuatorStep::ReportToneFailure,
                PatternStep::Finished => ActuatorStep::Receive,
            },
            ActuatorState::Stopped => ActuatorStep::Exit,
        }
    }

    /// Takes in what happened and names the next step.
    pub fn step(&mut self, event: ActuatorEvent) -> (step: ActuatorStep)
        ensures
            *final(self) == old(self).next_of(event),
            step == final(self).pending_of(),
    {
        let state = match self.state {
            ActuatorState::Waiting => match event {
                ActuatorEvent::Received { command } => ActuatorState::from_player(
                    PatternPlayer::new(command, self.timing),
                ),
                ActuatorEvent::ChannelClosed => ActuatorState::Stopped,
                _ => self.state,
            },
            ActuatorState::Playing { pattern } => match event {
                ActuatorEvent::Output { event } => ActuatorState::from_player(
                    pattern.next(event),
                ),
                _ => self.state,
            },
            ActuatorState::Stopped => self.state,
        };
        self.state = state;
        self.pending()
    }
}

} // verus!
