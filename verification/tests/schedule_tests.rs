use alarm_clock::channel::{CommandChannel, Reception};
use alarm_clock::clock::WallClockSample;
use alarm_clock::command::AlarmCommand;
use alarm_clock::config::QuietHoursWindow;
use alarm_clock::detection::detect;
use alarm_clock::schedule::{Evaluation, ScheduleState};

fn at(hours: u64, minutes: u64, seconds: u64) -> u64 {
    hours * 3600 + minutes * 60 + seconds
}

fn poll(state: &mut ScheduleState, t: u64) -> Evaluation {
    state.evaluate(WallClockSample::from_epoch_seconds(t), QuietHoursWindow::default())
}

#[test]
fn eight_o_clock_strikes_eight() {
    let mut state = ScheduleState::new();
    let evaluation = poll(&mut state, at(8, 0, 3));
    assert_eq!(
        evaluation.hourly,
        Some(AlarmCommand::PlayAlarm { repeat_count: 8, frequency_hz: 2000 })
    );
    assert_eq!(evaluation.ten_past, None);
    assert_eq!(state.last_hour_fired, Some(8));
    assert_eq!(state.last_ten_min_fired, None);
}

#[test]
fn ten_past_eleven_at_night() {
    let mut state = ScheduleState::new();
    let evaluation = poll(&mut state, at(23, 10, 5));
    assert_eq!(
        evaluation.ten_past,
        Some(AlarmCommand::PlayAlarm { repeat_count: 3, frequency_hz: 2600 })
    );
    assert_eq!(evaluation.hourly, None);
    assert_eq!(state.last_ten_min_fired, Some(23));
    assert_eq!(state.last_hour_fired, None);
}

#[test]
fn midnight_is_silent() {
    let mut state = ScheduleState::new();
    let evaluation = poll(&mut state, at(0, 0, 0));
    assert_eq!(evaluation.hourly, None);
    assert_eq!(evaluation.ten_past, None);
    assert_eq!(state.last_hour_fired, None);
    assert_eq!(state.last_ten_min_fired, None);
}

#[test]
fn midnight_of_a_later_day_is_silent() {
    let mut state = ScheduleState::new();
    let evaluation = poll(&mut state, 20_000 * 86_400);
    assert_eq!(evaluation.hourly, None);
    assert_eq!(evaluation.ten_past, None);
}

#[test]
fn second_poll_of_the_same_minute_is_silent() {
    let mut state = ScheduleState::new();
    assert!(poll(&mut state, at(9, 0, 0)).hourly.is_some());
    assert_eq!(poll(&mut state, at(9, 0, 0)).hourly, None);
    assert_eq!(poll(&mut state, at(9, 0, 1)).hourly, None);
    assert_eq!(poll(&mut state, at(9, 0, 59)).hourly, None);
}

#[test]
fn window_edges_are_inside() {
    let mut state = ScheduleState::new();
    assert_eq!(
        poll(&mut state, at(7, 0, 0)).hourly,
        Some(AlarmCommand::PlayAlarm { repeat_count: 7, frequency_hz: 2000 })
    );
    assert_eq!(
        poll(&mut state, at(23, 0, 0)).hourly,
        Some(AlarmCommand::PlayAlarm { repeat_count: 23, frequency_hz: 2000 })
    );
    assert_eq!(poll(&mut state, at(6, 0, 0)).hourly, None);
    assert_eq!(poll(&mut state, at(6, 10, 0)).ten_past, None);
}

#[test]
fn suppressed_poll_leaves_the_markers() {
    let mut state = ScheduleState::new();
    poll(&mut state, at(23, 0, 0));
    poll(&mut state, at(23, 10, 0));
    let before = state;
    poll(&mut state, at(24 + 3, 0, 0));
    poll(&mut state, at(24 + 3, 10, 0));
    assert_eq!(state.last_hour_fired, before.last_hour_fired);
    assert_eq!(state.last_ten_min_fired, before.last_ten_min_fired);
}

#[test]
fn the_two_rules_do_not_interfere() {
    let mut state = ScheduleState::new();
    assert!(poll(&mut state, at(10, 0, 0)).hourly.is_some());
    assert!(poll(&mut state, at(10, 10, 0)).ten_past.is_some());
    assert_eq!(state.last_hour_fired, Some(10));
    assert_eq!(state.last_ten_min_fired, Some(10));
}

#[test]
fn other_minutes_are_silent() {
    let mut state = ScheduleState::new();
    for minute in 0..60u64 {
        let evaluation = poll(&mut state, at(12, minute, 30));
        assert_eq!(evaluation.hourly.is_some(), minute == 0);
        assert_eq!(evaluation.ten_past.is_some(), minute == 10);
    }
}

#[test]
fn each_hour_of_a_day_fires_once() {
    let mut state = ScheduleState::new();
    let mut hourly: Vec<AlarmCommand> = Vec::new();
    let mut ten_past_hours: Vec<u8> = Vec::new();
    let start = 19_000 * 86_400u64;
    for t in start..start + 86_400 {
        // Two polls a second, as the detection loop makes them.
        for _ in 0..2 {
            let sample = WallClockSample::from_epoch_seconds(t);
            let evaluation = state.evaluate(sample, QuietHoursWindow::default());
            if let Some(command) = evaluation.hourly {
                assert_eq!(sample.minutes, 0);
                hourly.push(command);
            }
            if let Some(command) = evaluation.ten_past {
                assert_eq!(sample.minutes, 10);
                assert_eq!(command, AlarmCommand::PlayAlarm { repeat_count: 3, frequency_hz: 2600 });
                ten_past_hours.push(sample.hours);
            }
        }
    }
    let expected_hours: Vec<u8> = (7..=23).collect();
    let expected: Vec<AlarmCommand> = expected_hours
        .iter()
        .map(|h| AlarmCommand::PlayAlarm { repeat_count: *h, frequency_hz: 2000 })
        .collect();
    assert_eq!(hourly, expected);
    assert_eq!(ten_past_hours, expected_hours);
}

#[test]
fn three_days_fire_once_per_hour_each_day() {
    let mut state = ScheduleState::new();
    let mut fired = 0;
    let mut ten_past = 0;
    let start = 19_000 * 86_400u64;
    for t in start..start + 3 * 86_400 {
        let evaluation = poll(&mut state, t);
        let sample = WallClockSample::from_epoch_seconds(t);
        if evaluation.hourly.is_some() {
            assert!(sample.hours >= 7 && sample.hours <= 23);
            fired += 1;
        }
        if evaluation.ten_past.is_some() {
            assert!(sample.hours >= 7 && sample.hours <= 23);
            ten_past += 1;
        }
    }
    assert_eq!(fired, 3 * 17);
    assert_eq!(ten_past, 3 * 17);
}

#[test]
fn a_window_of_one_hour_fires_once_and_then_never() {
    // The marker changes only when another hour fires: with one hour in the
    // window, no other ever does.
    let window = QuietHoursWindow { start_hour: 7, end_hour: 7 };
    let mut state = ScheduleState::new();
    let first = state.evaluate(WallClockSample::from_epoch_seconds(at(7, 0, 0)), window);
    let next_day = state.evaluate(WallClockSample::from_epoch_seconds(at(24 + 7, 0, 0)), window);
    assert!(first.hourly.is_some());
    assert_eq!(next_day.hourly, None);
}

#[test]
fn an_empty_window_is_always_silent() {
    let window = QuietHoursWindow { start_hour: 9, end_hour: 8 };
    let mut state = ScheduleState::new();
    for hour in 0..24u64 {
        let evaluation = state.evaluate(WallClockSample::from_epoch_seconds(at(hour, 0, 0)), window);
        assert_eq!(evaluation.hourly, None);
        let evaluation =
            state.evaluate(WallClockSample::from_epoch_seconds(at(hour, 10, 0)), window);
        assert_eq!(evaluation.ten_past, None);
    }
    assert_eq!(state.last_hour_fired, None);
    assert_eq!(state.last_ten_min_fired, None);
}

#[test]
fn window_contains_is_inclusive() {
    let window = QuietHoursWindow::default();
    assert_eq!(window, QuietHoursWindow { start_hour: 7, end_hour: 23 });
    assert!(!window.contains(6));
    assert!(window.contains(7));
    assert!(window.contains(23));
    assert!(!window.contains(24));
}

#[test]
fn status_line_once_per_five_minutes() {
    let mut state = ScheduleState::new();
    assert!(poll(&mut state, at(3, 5, 0)).status_due);
    assert_eq!(state.last_log_bucket, Some((3 * 60 + 5) / 5));
    assert!(!poll(&mut state, at(3, 5, 1)).status_due);
    assert!(!poll(&mut state, at(3, 6, 0)).status_due);
    assert!(!poll(&mut state, at(3, 9, 59)).status_due);
    assert_eq!(state.last_log_bucket, Some(37));
    assert!(poll(&mut state, at(3, 10, 0)).status_due);
    assert_eq!(state.last_log_bucket, Some(38));
}

#[test]
fn status_line_is_due_outside_the_window_too() {
    let mut state = ScheduleState::new();
    let evaluation = poll(&mut state, at(2, 0, 0));
    assert!(evaluation.status_due);
    assert_eq!(evaluation.hourly, None);
    assert_eq!(state.last_log_bucket, Some(24));
}

#[test]
fn last_bucket_of_the_day() {
    let mut state = ScheduleState::new();
    assert!(poll(&mut state, at(23, 55, 0)).status_due);
    assert_eq!(state.last_log_bucket, Some(287));
}

#[test]
fn default_state_is_fresh() {
    let state = ScheduleState::default();
    assert_eq!(state, ScheduleState::new());
    assert_eq!(state.last_hour_fired, None);
    assert_eq!(state.last_ten_min_fired, None);
    assert_eq!(state.last_log_bucket, None);
}

#[test]
fn alarm_constructors() {
    assert_eq!(
        AlarmCommand::hourly(17),
        AlarmCommand::PlayAlarm { repeat_count: 17, frequency_hz: 2000 }
    );
    assert_eq!(
        AlarmCommand::ten_past(),
        AlarmCommand::PlayAlarm { repeat_count: 3, frequency_hz: 2600 }
    );
    let command = AlarmCommand::PlayAlarm { repeat_count: 255, frequency_hz: 0 };
    assert_eq!(command.repeat_count(), 255);
    assert_eq!(command.frequency_hz(), 0);
}

#[test]
fn detection_round_sends_what_fired() {
    let mut state = ScheduleState::new();
    let mut channel = CommandChannel::new();
    let window = QuietHoursWindow::default();
    let detection = detect(&mut state, &mut channel, window, at(8, 0, 3));
    assert_eq!(detection.sample, WallClockSample { hours: 8, minutes: 0, seconds: 3 });
    assert_eq!(
        detection.evaluation.alarm(),
        Some(AlarmCommand::PlayAlarm { repeat_count: 8, frequency_hz: 2000 })
    );
    assert!(!detection.send_failed);
    assert_eq!(channel.len(), 1);
    let quiet = detect(&mut state, &mut channel, window, at(8, 0, 4));
    assert_eq!(quiet.evaluation.alarm(), None);
    assert!(!quiet.send_failed);
    assert_eq!(channel.len(), 1);
    let later = detect(&mut state, &mut channel, window, at(8, 10, 0));
    assert_eq!(later.evaluation.alarm(), Some(AlarmCommand::ten_past()));
    assert_eq!(channel.receive(), Reception::Received { command: AlarmCommand::hourly(8) });
    assert_eq!(channel.receive(), Reception::Received { command: AlarmCommand::ten_past() });
    assert_eq!(channel.receive(), Reception::Empty);
}

#[test]
fn detection_goes_on_when_the_actuator_is_gone() {
    let mut state = ScheduleState::new();
    let mut channel = CommandChannel::new();
    channel.close_receiver();
    let window = QuietHoursWindow::default();
    let detection = detect(&mut state, &mut channel, window, at(9, 0, 0));
    assert!(detection.evaluation.hourly.is_some());
    assert!(detection.send_failed);
    assert_eq!(channel.len(), 0);
    assert_eq!(state.last_hour_fired, Some(9));
    let quiet = detect(&mut state, &mut channel, window, at(9, 1, 0));
    assert!(!quiet.send_failed);
    let next = detect(&mut state, &mut channel, window, at(10, 0, 0));
    assert!(next.evaluation.hourly.is_some());
    assert!(next.send_failed);
}
