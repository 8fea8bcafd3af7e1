use alarm_clock::clock::WallClockSample;

fn second_of_day(sample: &WallClockSample) -> u64 {
    sample.hours as u64 * 3600 + sample.minutes as u64 * 60 + sample.seconds as u64
}

#[test]
fn epoch_zero_is_midnight() {
    let sample = WallClockSample::from_epoch_seconds(0);
    assert_eq!(sample, WallClockSample { hours: 0, minutes: 0, seconds: 0 });
}

#[test]
fn last_second_of_the_first_day() {
    let sample = WallClockSample::from_epoch_seconds(86_399);
    assert_eq!(sample, WallClockSample { hours: 23, minutes: 59, seconds: 59 });
}

#[test]
fn first_second_of_the_second_day() {
    let sample = WallClockSample::from_epoch_seconds(86_400);
    assert_eq!(sample, WallClockSample { hours: 0, minutes: 0, seconds: 0 });
}

#[test]
fn a_reading_of_our_days() {
    // 1_700_000_000 = 19_675 days and 80_000 seconds.
    let sample = WallClockSample::from_epoch_seconds(1_700_000_000);
    assert_eq!(sample, WallClockSample { hours: 22, minutes: 13, seconds: 20 });
}

#[test]
fn formula_for_each_field() {
    let t: u64 = 1_234_567_890;
    let sample = WallClockSample::from_epoch_seconds(t);
    assert_eq!(sample.hours as u64, (t / 3600) % 24);
    assert_eq!(sample.minutes as u64, (t / 60) % 60);
    assert_eq!(sample.seconds as u64, t % 60);
}

#[test]
fn fields_stay_in_range_and_add_up() {
    let mut t: u64 = 0;
    while t < 400_000 {
        let sample = WallClockSample::from_epoch_seconds(t);
        assert!(sample.hours < 24);
        assert!(sample.minutes < 60);
        assert!(sample.seconds < 60);
        assert_eq!(second_of_day(&sample), t % 86_400);
        t += 37;
    }
}

#[test]
fn largest_reading() {
    let t = u64::MAX;
    let sample = WallClockSample::from_epoch_seconds(t);
    assert!(sample.hours < 24 && sample.minutes < 60 && sample.seconds < 60);
    assert_eq!(second_of_day(&sample), t % 86_400);
}
