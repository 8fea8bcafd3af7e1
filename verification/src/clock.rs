//! Clock sampler: decomposes an epoch-seconds reading into hour, minute and second.

use vstd::prelude::*;

verus! {

pub const SECONDS_PER_MINUTE: u64 = 60;

pub const SECONDS_PER_HOUR: u64 = 3600;

pub const SECONDS_PER_DAY: u64 = 86400;

/// Hour of the day of the instant `t` seconds after the epoch.
pub open spec fn hour_of(t: nat) -> nat {
    (t / 3600) % 24
}

/// Minute of the hour of the instant `t` seconds after the epoch.
pub open spec fn minute_of(t: nat) -> nat {
    (t / 60) % 60
}

/// Second of the minute of the instant `t` seconds after the epoch.
pub open spec fn second_of(t: nat) -> nat {
    t % 60
}

/// A wall-clock reading. Recomputed on every poll and never modified.
#[derive(Clone, Copy, Debug, PartialEq, Eq, Structural)]
pub struct WallClockSample {
    pub hours: u8,
    pub minutes: u8,
    pub seconds: u8,
}

impl WallClockSample {
    /// The fields lie in the ranges of a 24-hour clock.
    pub open spec fn wf(self) -> bool {
        self.hours < 24 && self.minutes < 60 && self.seconds < 60
    }

    /// The reading that the instant `t` seconds after the epoch gives.
    pub open spec fn of_epoch(t: nat) -> WallClockSample {
        WallClockSample {
            hours: hour_of(t) as u8,
            minutes: minute_of(t) as u8,
            seconds: second_of(t) as u8,
        }
    }

    /// Seconds since the last midnight.
    pub open spec fn second_of_day(self) -> nat {
        (self.hours * 3600 + self.minutes * 60 + self.seconds) as nat
    }

    /// Decomposes an epoch-seconds reading.
    pub fn from_epoch_seconds(t: u64) -> (sample: WallClockSample)
        ensures
            sample == WallClockSample::of_epoch(t as nat),
            sample.hours == hour_of(t as nat),
            sample.minutes == minute_of(t as nat),
            sample.seconds == second_of(t as nat),
            sample.wf(),
            sample.second_of_day() == t % 86400,
    {
        let hours: u64 = (t / SECONDS_PER_HOUR) % 24;
        let minutes: u64 = (t / SECONDS_PER_MINUTE) % 60;
        let seconds: u64 = t % SECONDS_PER_MINUTE;
        proof {
            lemma_decomposition(t as nat);
        }
        WallClockSample { hours: hours as u8, minutes: minutes as u8, seconds: seconds as u8 }
    }
}

/// The three fields of a reading add up to the second of the day.
pub proof fn lemma_decomposition(t: nat)
    ensures
        hour_of(t) < 24,
        minute_of(t) < 60,
        second_of(t) < 60,
        hour_of(t) * 3600 + minute_of(t) * 60 + second_of(t) == t % 86400,
        WallClockSample::of_epoch(t).wf(),
        WallClockSample::of_epoch(t).second_of_day() == t % 86400,
{
    let m = t / 60;
    let h = m / 60;
    let d = h / 24;
    assert(t == 60 * m + t % 60);
    assert(m == 60 * h + m % 60);
    assert(h == 24 * d + h % 24);
    assert(t / 3600 == h) by {
        assert(t == 3600 * h + (60 * (m % 60) + t % 60));
        vstd::arithmetic::div_mod::lemma_fundamental_div_mod_converse(
            t as int, 3600, h as int, (60 * (m % 60) + t % 60) as int);
    }
    assert(t % 86400 == 3600 * (h % 24) + 60 * (m % 60) + t % 60) by {
        assert(t == 86400 * d + (3600 * (h % 24) + 60 * (m % 60) + t % 60));
        vstd::arithmetic::div_mod::lemma_fundamental_div_mod_converse(
            t as int, 86400, d as int, (3600 * (h % 24) + 60 * (m % 60) + t % 60) as int);
    }
}

} // verus!
