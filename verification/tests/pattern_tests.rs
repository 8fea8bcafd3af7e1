use alarm_clock::actuator::{ActuatorEvent, ActuatorState, ActuatorStep, ToneActuator};
use alarm_clock::command::AlarmCommand;
use alarm_clock::config::TimingConstants;
use alarm_clock::output::{OutputAction, OutputEvent};
use alarm_clock::pattern::{PatternPlayer, PatternStep};

fn pulse(repeat_count: u8) -> AlarmCommand {
    AlarmCommand::PlayAlarm { repeat_count, frequency_hz: 0 }
}

fn perform(action: OutputAction) -> PatternStep {
    PatternStep::Perform { action }
}

/// Plays a pattern of plain pulses on a line that never fails and lists what
/// was asked for.
fn play(command: AlarmCommand) -> Vec<OutputAction> {
    let mut player = PatternPlayer::new(command, TimingConstants::default());
    let mut asked = Vec::new();
    let mut step = player.pending();
    for _ in 0..100_000 {
        match step {
            PatternStep::Perform { action } => {
                asked.push(action);
                step = player.step(OutputEvent::Completed);
            }
            PatternStep::ReportToneFailure => panic!("nothing failed"),
            PatternStep::Finished => return asked,
        }
    }
    panic!("the pattern did not end");
}

#[test]
fn standard_timing() {
    let timing = TimingConstants::default();
    assert_eq!(timing.beep_duration_ms, 200);
    assert_eq!(timing.beep_pause_ms, 200);
    assert_eq!(timing.pattern_pause_ms, 500);
    assert_eq!(timing.network_check_interval_ms, 30_000);
    assert_eq!(timing.resync_interval_secs, 3600);
    assert_eq!(timing.poll_interval_ms, 500);
    assert_eq!(timing.min_sleep_us, 1000);
}

#[test]
fn nothing_to_repeat_plays_nothing() {
    let mut player = PatternPlayer::new(pulse(0), TimingConstants::default());
    assert_eq!(player, PatternPlayer::Finished);
    assert_eq!(player.pending(), PatternStep::Finished);
    assert_eq!(player.step(OutputEvent::Completed), PatternStep::Finished);
    assert_eq!(play(pulse(0)), vec![]);
    let wave = AlarmCommand::PlayAlarm { repeat_count: 0, frequency_hz: 2000 };
    assert_eq!(play(wave), vec![]);
}

#[test]
fn one_repetition_is_burst_pause_pause() {
    assert_eq!(
        play(pulse(1)),
        vec![
            OutputAction::SetHigh,
            OutputAction::SleepMillis { millis: 200 },
            OutputAction::SetLow,
            OutputAction::SleepMillis { millis: 200 },
            OutputAction::SleepMillis { millis: 500 },
        ]
    );
}

#[test]
fn three_repetitions() {
    let once = play(pulse(1));
    let thrice = play(pulse(3));
    assert_eq!(thrice.len(), 3 * once.len());
    for (i, action) in thrice.iter().enumerate() {
        assert_eq!(*action, once[i % once.len()]);
    }
}

#[test]
fn most_repetitions() {
    let asked = play(pulse(255));
    assert_eq!(asked.len(), 255 * 5);
    let bursts = asked.iter().filter(|action| **action == OutputAction::SetHigh).count();
    assert_eq!(bursts, 255);
}

#[test]
fn configured_lengths_are_used() {
    let timing = TimingConstants {
        beep_duration_ms: 11,
        beep_pause_ms: 22,
        pattern_pause_ms: 33,
        ..TimingConstants::default()
    };
    let mut player = PatternPlayer::new(pulse(1), timing);
    assert_eq!(player.pending(), perform(OutputAction::SetHigh));
    assert_eq!(
        player.step(OutputEvent::Completed),
        perform(OutputAction::SleepMillis { millis: 11 })
    );
    assert_eq!(player.step(OutputEvent::Completed), perform(OutputAction::SetLow));
    assert_eq!(
        player.step(OutputEvent::Completed),
        perform(OutputAction::SleepMillis { millis: 22 })
    );
    assert_eq!(
        player.step(OutputEvent::Completed),
        perform(OutputAction::SleepMillis { millis: 33 })
    );
    assert_eq!(player.step(OutputEvent::Completed), PatternStep::Finished);
}

#[test]
fn a_wave_pattern_starts_its_clock_for_each_burst() {
    let command = AlarmCommand::PlayAlarm { repeat_count: 2, frequency_hz: 100 };
    let mut player = PatternPlayer::new(command, TimingConstants::default());
    let mut clock_starts = 0;
    let mut elapsed = 0u64;
    let mut step = player.pending();
    let mut steps = 0;
    while let PatternStep::Perform { action } = step {
        let event = match action {
            OutputAction::StartClock => {
                clock_starts += 1;
                elapsed = 0;
                OutputEvent::Completed
            }
            OutputAction::ReadClock => OutputEvent::Elapsed { micros: elapsed },
            OutputAction::SleepMicros { micros } => {
                elapsed += micros;
                OutputEvent::Completed
            }
            _ => OutputEvent::Completed,
        };
        step = player.step(event);
        steps += 1;
        assert!(steps < 10_000);
    }
    assert_eq!(step, PatternStep::Finished);
    assert_eq!(clock_starts, 2);
}

#[test]
fn a_failed_burst_is_reported_and_the_pattern_goes_on() {
    let mut player = PatternPlayer::new(pulse(2), TimingConstants::default());
    assert_eq!(player.pending(), perform(OutputAction::SetHigh));
    assert_eq!(player.step(OutputEvent::WriteFailed), PatternStep::ReportToneFailure);
    assert_eq!(
        player.step(OutputEvent::Completed),
        perform(OutputAction::SleepMillis { millis: 200 })
    );
    assert_eq!(
        player.step(OutputEvent::Completed),
        perform(OutputAction::SleepMillis { millis: 500 })
    );
    // The second repetition begins as if nothing had happened.
    assert_eq!(player.step(OutputEvent::Completed), perform(OutputAction::SetHigh));
    assert_eq!(
        player.step(OutputEvent::Completed),
        perform(OutputAction::SleepMillis { millis: 200 })
    );
    assert_eq!(player.step(OutputEvent::Completed), perform(OutputAction::SetLow));
    assert_eq!(
        player.step(OutputEvent::Completed),
        perform(OutputAction::SleepMillis { millis: 200 })
    );
    assert_eq!(
        player.step(OutputEvent::Completed),
        perform(OutputAction::SleepMillis { millis: 500 })
    );
    assert_eq!(player.step(OutputEvent::Completed), PatternStep::Finished);
}

#[test]
fn a_pause_takes_no_other_outcome() {
    let mut player = PatternPlayer::new(pulse(1), TimingConstants::default());
    player.step(OutputEvent::Completed);
    player.step(OutputEvent::Completed);
    let pause = player.step(OutputEvent::Completed);
    assert_eq!(pause, perform(OutputAction::SleepMillis { millis: 200 }));
    let before = player;
    assert_eq!(player.step(OutputEvent::WriteFailed), pause);
    assert_eq!(player.step(OutputEvent::Elapsed { micros: 1 }), pause);
    assert_eq!(player, before);
}

#[test]
fn the_worker_waits_plays_and_waits_again() {
    let mut worker = ToneActuator::new(TimingConstants::default());
    assert_eq!(worker.pending(), ActuatorStep::Receive);
    let mut step = worker.step(ActuatorEvent::Received { command: pulse(1) });
    let mut asked = Vec::new();
    while let ActuatorStep::Perform { action } = step {
        asked.push(action);
        step = worker.step(ActuatorEvent::Output { event: OutputEvent::Completed });
        assert!(asked.len() < 100);
    }
    assert_eq!(asked, play(pulse(1)));
    assert_eq!(step, ActuatorStep::Receive);
    assert_eq!(worker.state, ActuatorState::Waiting);
}

#[test]
fn the_worker_plays_commands_one_after_the_other() {
    let mut worker = ToneActuator::new(TimingConstants::default());
    let mut asked = Vec::new();
    for command in [pulse(2), pulse(0), pulse(1)] {
        assert_eq!(worker.pending(), ActuatorStep::Receive);
        let mut step = worker.step(ActuatorEvent::Received { command });
        while let ActuatorStep::Perform { action } = step {
            asked.push(action);
            step = worker.step(ActuatorEvent::Output { event: OutputEvent::Completed });
        }
    }
    assert_eq!(asked.len(), 3 * 5);
    assert_eq!(worker.step(ActuatorEvent::ChannelClosed), ActuatorStep::Exit);
}

#[test]
fn a_command_of_no_repetitions_leaves_the_worker_waiting() {
    let mut worker = ToneActuator::new(TimingConstants::default());
    assert_eq!(worker.step(ActuatorEvent::Received { command: pulse(0) }), ActuatorStep::Receive);
    assert_eq!(worker.state, ActuatorState::Waiting);
}

#[test]
fn the_worker_ends_when_the_channel_closes() {
    let mut worker = ToneActuator::new(TimingConstants::default());
    assert_eq!(worker.step(ActuatorEvent::ChannelClosed), ActuatorStep::Exit);
    assert_eq!(worker.state, ActuatorState::Stopped);
    assert_eq!(worker.step(ActuatorEvent::Received { command: pulse(1) }), ActuatorStep::Exit);
    assert_eq!(
        worker.step(ActuatorEvent::Output { event: OutputEvent::Completed }),
        ActuatorStep::Exit
    );
}

#[test]
fn a_pattern_under_way_is_not_interrupted() {
    let mut worker = ToneActuator::new(TimingConstants::default());
    let first = worker.step(ActuatorEvent::Received { command: pulse(1) });
    assert_eq!(first, ActuatorStep::Perform { action: OutputAction::SetHigh });
    let before = worker;
    assert_eq!(worker.step(ActuatorEvent::Received { command: pulse(9) }), first);
    assert_eq!(worker.step(ActuatorEvent::ChannelClosed), first);
    assert_eq!(worker, before);
}

#[test]
fn the_worker_reports_a_failed_burst_and_goes_on() {
    let mut worker = ToneActuator::new(TimingConstants::default());
    worker.step(ActuatorEvent::Received { command: pulse(1) });
    assert_eq!(
        worker.step(ActuatorEvent::Output { event: OutputEvent::WriteFailed }),
        ActuatorStep::ReportToneFailure
    );
    assert_eq!(
        worker.step(ActuatorEvent::Output { event: OutputEvent::Completed }),
        ActuatorStep::Perform { action: OutputAction::SleepMillis { millis: 200 } }
    );
    assert_eq!(
        worker.step(ActuatorEvent::Output { event: OutputEvent::Completed }),
        ActuatorStep::Perform { action: OutputAction::SleepMillis { millis: 500 } }
    );
    assert_eq!(
        worker.step(ActuatorEvent::Output { event: OutputEvent::Completed }),
        ActuatorStep::Receive
    );
}
