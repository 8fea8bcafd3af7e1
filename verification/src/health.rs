//! Health monitor: the two maintenance tasks that the detection loop runs
//! inline, each gated by a fixed interval. One checks the network link and
//! reconnects it when it is down; the other resynchronises the clock.
//!
//! The monitor decides and the loop acts: the monitor names the next step,
//! the loop carries it out against the network and the time source and
//! reports how it ended, together with the time at which it ended.

use vstd::prelude::*;
use crate::config::TimingConstants;

verus! {

pub const MILLIS_PER_SECOND: u64 = 1000;

/// Whole seconds from `last_ms` to `now_ms`, both in milliseconds on the
/// same clock. There are none to count where the clock was set back.
pub open spec fn elapsed_secs_of(last_ms: u64, now_ms: u64) -> Option<nat> {
    if now_ms < last_ms {
        None
    } else {
        Some(((now_ms - last_ms) / 1000) as nat)
    }
}

/// Whether a link that reports `status` counts as connected: a link that
/// cannot say counts as down.
pub open spec fn link_up_of<E>(status: Result<bool, E>) -> bool {
    status == Ok::<bool, E>(true)
}

/// Whether a link that reports `status` counts as connected.
pub fn link_is_up<E>(status: Result<bool, E>) -> (up: bool)
    ensures
        up == link_up_of(status),
{
    match status {
        Ok(connected) => connected,
        Err(_) => false,
    }
}

/// Whole seconds from `last_ms` to `now_ms`.
pub fn elapsed_secs(last_ms: u64, now_ms: u64) -> (elapsed: Option<u64>)
    ensures
        elapsed is Some <==> elapsed_secs_of(last_ms, now_ms) is Some,
        elapsed matches Some(secs) ==> elapsed_secs_of(last_ms, now_ms) == Some(secs as nat),
{
    if now_ms < last_ms {
        None
    } else {
        Some((now_ms - last_ms) / MILLIS_PER_SECOND)
    }
}

/// What the loop reports to the monitor.
#[derive(Clone, Copy, Debug, PartialEq, Eq, Structural)]
pub enum HealthEvent {
    /// A new round of the detection loop begins.
    Poll,
    /// The link was asked for its status.
    Link { up: bool },
    /// A connection attempt ended.
    Connected { ok: bool },
    /// The wait for a network address ended.
    Addressed { ok: bool },
    /// The time source was set up anew.
    Resynced { ok: bool },
}

/// What the monitor asks for next.
#[derive(Clone, Copy, Debug, PartialEq, Eq, Structural)]
pub enum HealthStep {
    /// Nothing is due: go on with the round.
    Rest,
    /// Ask the link for its status.
    QueryLink,
    /// Connect to the network.
    Connect,
    /// Wait for a network address.
    WaitForAddress,
    /// Set the time source up anew.
    Resync,
}

/// The step that the monitor waits on.
#[derive(Clone, Copy, Debug, PartialEq, Eq, Structural)]
pub enum HealthPhase {
    Idle,
    LinkQuery,
    Connecting,
    AwaitingAddress,
    Resyncing,
}

/// The state of the two maintenance tasks.
#[derive(Clone, Copy, Debug, PartialEq, Eq, Structural)]
pub struct HealthMonitor {
    pub network_check_interval_ms: u64,
    pub resync_interval_secs: u64,
    /// When the link was last checked, in milliseconds.
    pub last_network_check_ms: u64,
    /// When the clock was last resynchronised, in milliseconds.
    pub last_resync_ms: u64,
    pub phase: HealthPhase,
}

impl HealthMonitor {
    /// The monitor at startup, at time `now_ms`: both tasks count as just done.
    pub open spec fn start_of(timing: TimingConstants, now_ms: u64) -> HealthMonitor {
        HealthMonitor {
            network_check_interval_ms: timing.network_check_interval_ms,
            resync_interval_secs: timing.resync_interval_secs,
            last_network_check_ms: now_ms,
            last_resync_ms: now_ms,
            phase: HealthPhase::Idle,
        }
    }

    /// Whether the link is due for a check at `now_ms`: the whole seconds
    /// since the last check, as milliseconds, exceed the interval.
    pub open spec fn network_due(self, now_ms: u64) -> bool {
        elapsed_secs_of(self.last_network_check_ms, now_ms) matches Some(secs) && secs * 1000
            > self.network_check_interval_ms
    }

    /// Whether the clock is due for a resynchronisation at `now_ms`: the
    /// whole seconds since the last one exceed the interval.
    pub open spec fn resync_due(self, now_ms: u64) -> bool {
        elapsed_secs_of(self.last_resync_ms, now_ms) matches Some(secs) && secs
            > self.resync_interval_secs
    }

    /// The step that the monitor waits on.
    pub open spec fn pending_of(self) -> HealthStep {
        match self.phase {
            HealthPhase::Idle => HealthStep::Rest,
            HealthPhase::LinkQuery => HealthStep::QueryLink,
            HealthPhase::Connecting => HealthStep::Connect,
            HealthPhase::AwaitingAddress => HealthStep::WaitForAddress,
            HealthPhase::Resyncing => HealthStep::Resync,
        }
    }

    /// The monitor once the clock's turn has come, at `now_ms`.
    pub open spec fn clock_turn_of(self, now_ms: u64) -> HealthMonitor {
        HealthMonitor {
            phase: if self.resync_due(now_ms) {
                HealthPhase::Resyncing
            } else {
                HealthPhase::Idle
            },
            ..self
        }
    }

    /// The monitor once the link check is over, at `now_ms`, however it
    /// ended: the next check is due one interval from now.
    pub open spec fn link_done_of(self, now_ms: u64) -> HealthMonitor {
        HealthMonitor { last_network_check_ms: now_ms, ..self }.clock_turn_of(now_ms)
    }

    /// The state that follows `event`, which took place at `now_ms`.
    ///
    /// A round checks the link first, if that is due, and the clock after it.
    /// A link that is down gets one connection attempt and, if that succeeds,
    /// one wait for an address. A resynchronisation counts as done whether or
    /// not it succeeded: it is tried again one interval later. An event that
    /// the pending step cannot produce changes nothing.
    pub open spec fn next_of(self, event: HealthEvent, now_ms: u64) -> HealthMonitor {
        match (self.phase, event) {
            (HealthPhase::Idle, HealthEvent::Poll) => if self.network_due(now_ms) {
                HealthMonitor { phase: HealthPhase::LinkQuery, ..self }
            } else {
                self.clock_turn_of(now_ms)
            },
            (HealthPhase::LinkQuery, HealthEvent::Link { up }) => if up {
                self.link_done_of(now_ms)
            } else {
                HealthMonitor { phase: HealthPhase::Connecting, ..self }
            },
            (HealthPhase::Connecting, HealthEvent::Connected { ok }) => if ok {
                HealthMonitor { phase: HealthPhase::AwaitingAddress, ..self }
            } else {
                self.link_done_of(now_ms)
            },
            (HealthPhase::AwaitingAddress, HealthEvent::Addressed { ok }) => self.link_done_of(
                now_ms,
            ),
            (HealthPhase::Resyncing, HealthEvent::Resynced { ok }) => HealthMonitor {
                last_resync_ms: now_ms,
                phase: HealthPhase::Idle,
                ..self
            },
            _ => self,
        }
    }

    /// The monitor at startup, at time `now_ms`.
    pub fn new(timing: TimingConstants, now_ms: u64) -> (monitor: HealthMonitor)
        ensures
            monitor == HealthMonitor::start_of(timing, now_ms),
            monitor.pending_of() == HealthStep::Rest,
    {
        HealthMonitor {
            network_check_interval_ms: timing.network_check_interval_ms,
            resync_interval_secs: timing.resync_interval_secs,
            last_network_check_ms: now_ms,
            last_resync_ms: now_ms,
            phase: HealthPhase::Idle,
        }
    }

    /// Whether the link is due for a check at `now_ms`.
    pub fn network_check_due(&self, now_ms: u64) -> (is_due: bool)
        ensures
            is_due == self.network_due(now_ms),
    {
        match elapsed_secs(self.last_network_check_ms, now_ms) {
            Some(secs) => {
                let whole_secs = self.network_check_interval_ms / MILLIS_PER_SECOND;
                assert((secs > whole_secs) == (secs * 1000 > self.network_check_interval_ms));
                secs > whole_secs
            },
            None => false,
        }
    }

    /// Whether the clock is due for a resynchronisation at `now_ms`.
    pub fn time_resync_due(&self, now_ms: u64) -> (is_due: bool)
        ensures
            is_due == self.resync_due(now_ms),
    {
        match elapsed_secs(self.last_resync_ms, now_ms) {
            Some(secs) => secs > self.resync_interval_secs,
            None => false,
        }
    }

    /// The step that the monitor waits on.
    pub fn pending(&self) -> (step: HealthStep)
        ensures
            step == self.pending_of(),
    {
        match self.phase {
            HealthPhase::Idle => HealthStep::Rest,
            HealthPhase::LinkQuery => HealthStep::QueryLink,
            HealthPhase::Connecting => HealthStep::Connect,
            HealthPhase::AwaitingAddress => HealthStep::WaitForAddress,
            HealthPhase::Resyncing => HealthStep::Resync,
        }
    }

    fn clock_turn(&mut self, now_ms: u64)
        ensures
            *final(self) == old(self).clock_turn_of(now_ms),
    {
        self.phase = if self.time_resync_due(now_ms) {
            HealthPhase::Resyncing
        } else {
            HealthPhase::Idle
        };
    }

    fn link_done(&mut self, now_ms: u64)
        ensures
            *final(self) == old(self).link_done_of(now_ms),
    {
        self.last_network_check_ms = now_ms;
        self.clock_turn(now_ms);
    }

    /// Takes in `event`, which took place at `now_ms`, and names the next
    /// step.
    pub fn step(&mut self, event: HealthEvent, now_ms: u64) -> (step: HealthStep)
        ensures
            *final(self) == old(self).next_of(event, now_ms),
            step == final(self).pending_of(),
    {
        match self.phase {
            HealthPhase::Idle => match event {
                HealthEvent::Poll => if self.network_check_due(now_ms) {
                    self.phase = HealthPhase::LinkQuery;
                } else {
                    self.clock_turn(now_ms);
                },
                _ => {},
            },
            HealthPhase::LinkQuery => match event {
                HealthEvent::Link { up } => if up {
                    self.link_done(now_ms);
                } else {
                    self.phase = HealthPhase::Connecting;
                },
                _ => {},
            },
            HealthPhase::Connecting => match event {
                HealthEvent::Connected { ok } => if ok {
                    self.phase = HealthPhase::AwaitingAddress;
                } else {
                    self.link_done(now_ms);
                },
                _ => {},
            },
            HealthPhase::AwaitingAddress => match event {
                HealthEvent::Addressed { .. } => {
                    self.link_done(now_ms);
                },
                _ => {},
            },
            HealthPhase::Resyncing => match event {
                HealthEvent::Resynced { .. } => {
                    self.last_resync_ms = now_ms;
                    self.phase = HealthPhase::Idle;
                },
                _ => {},
            },
        }
        self.pending()
    }
}

} // verus!
