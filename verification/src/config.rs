//! Build-time configuration: timing constants and the quiet-hours window.

use vstd::prelude::*;

verus! {

pub const BEEP_DURATION_MS: u64 = 200;

pub const BEEP_PAUSE_MS: u64 = 200;

pub const PATTERN_PAUSE_MS: u64 = 500;

pub const NETWORK_CHECK_INTERVAL_MS: u64 = 30000;

pub const RESYNC_INTERVAL_SECS: u64 = 3600;

pub const POLL_INTERVAL_MS: u64 = 500;

pub const MIN_SLEEP_THRESHOLD_US: u64 = 1000;

pub const WINDOW_START_HOUR: u8 = 7;

pub const WINDOW_END_HOUR: u8 = 23;

/// Process-wide, read-only timing configuration.
#[derive(Clone, Copy, Debug, PartialEq, Eq, Structural)]
pub struct TimingConstants {
    /// Length of one tone burst.
    pub beep_duration_ms: u64,
    /// Pause after each tone burst.
    pub beep_pause_ms: u64,
    /// Pause after each repetition of the pattern.
    pub pattern_pause_ms: u64,
    /// Time between two checks of the network link.
    pub network_check_interval_ms: u64,
    /// Time between two resynchronisations of the clock.
    pub resync_interval_secs: u64,
    /// Time between two polls of the detection loop.
    pub poll_interval_ms: u64,
    /// Shortest wait that the scheduler honours reliably; shorter waits spin.
    pub min_sleep_us: u64,
}

impl TimingConstants {
    /// The configuration that the clock ships with.
    pub open spec fn standard() -> TimingConstants {
        TimingConstants {
            beep_duration_ms: 200,
            beep_pause_ms: 200,
            pattern_pause_ms: 500,
            network_check_interval_ms: 30000,
            resync_interval_secs: 3600,
            poll_interval_ms: 500,
            min_sleep_us: 1000,
        }
    }
}

impl Default for TimingConstants {
    fn default() -> (timing: TimingConstants)
        ensures
            timing == TimingConstants::standard(),
    {
        TimingConstants {
            beep_duration_ms: BEEP_DURATION_MS,
            beep_pause_ms: BEEP_PAUSE_MS,
            pattern_pause_ms: PATTERN_PAUSE_MS,
            network_check_interval_ms: NETWORK_CHECK_INTERVAL_MS,
            resync_interval_secs: RESYNC_INTERVAL_SECS,
            poll_interval_ms: POLL_INTERVAL_MS,
            min_sleep_us: MIN_SLEEP_THRESHOLD_US,
        }
    }
}

/// Inclusive range of hours in which alarms sound; outside it they are
/// suppressed.
#[derive(Clone, Copy, Debug, PartialEq, Eq, Structural)]
pub struct QuietHoursWindow {
    pub start_hour: u8,
    pub end_hour: u8,
}

impl QuietHoursWindow {
    /// The window that the clock ships with: seven in the morning to eleven
    /// at night.
    pub open spec fn standard() -> QuietHoursWindow {
        QuietHoursWindow { start_hour: 7, end_hour: 23 }
    }

    /// Whether alarms sound in hour `hours`.
    pub open spec fn admits(self, hours: u8) -> bool {
        self.start_hour <= hours <= self.end_hour
    }

    /// Whether alarms sound in hour `hours`.
    pub fn contains(&self, hours: u8) -> (inside: bool)
        ensures
            inside == self.admits(hours),
    {
        self.start_hour <= hours && hours <= self.end_hour
    }
}

impl Default for QuietHoursWindow {
    fn default() -> (window: QuietHoursWindow)
        ensures
            window == QuietHoursWindow::standard(),
    {
        QuietHoursWindow { start_hour: WINDOW_START_HOUR, end_hour: WINDOW_END_HOUR }
    }
}

} // verus!
