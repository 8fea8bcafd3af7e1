//! The tone generator against an ideal output line and clock.
//!
//! On real hardware every write and every clock reading takes time, and a
//! sleep may overrun. Here nothing takes time but the waits, and each wait
//! lasts exactly as long as it was asked to: a sleep ends on time, and a busy
//! wait ends the moment its target is reached. Under these conditions the
//! number of level changes of a tone and the time it takes can be counted.

use vstd::prelude::*;
use vstd::arithmetic::div_mod::lemma_fundamental_div_mod_converse;
use crate::output::{Level, OutputAction, OutputEvent};
use crate::tone::{duration_us_of, half_period_of, ToneRenderer, ToneStep, WaveStep, WaveTone};

verus! {

/// A tone under way against the ideal line and clock.
pub struct IdealRun {
    pub state: ToneRenderer,
    /// Microseconds since the start of the tone.
    pub now: nat,
    /// Number of times the line was driven high.
    pub rises: nat,
    /// Number of times the line was driven low.
    pub falls: nat,
}

/// What the ideal clock reads at `now` for a generator in state `state`: a
/// busy wait that has not reached its target reads the target next.
pub open spec fn ideal_reading(state: ToneRenderer, now: nat) -> nat {
    match state {
        ToneRenderer::Wave { wave } => match wave.step {
            WaveStep::Spin { level, target } => if now < target {
                target as nat
            } else {
                now
            },
            _ => now,
        },
        _ => now,
    }
}

/// Number of full cycles, high then low, that a wave still goes through when
/// the clock reads `t` as a cycle is about to begin.
pub open spec fn cycles_from(t: nat, duration_us: nat, half_period: nat) -> nat
    decreases
            (if t < duration_us {
                duration_us - t
            } else {
                0
            }),
{
    if t >= duration_us || half_period == 0 {
        0
    } else {
        1 + cycles_from(t + 2 * half_period, duration_us, half_period)
    }
}

/// Number of full cycles of a tone: its length over the period, rounded up.
pub open spec fn cycles_of(duration_us: nat, half_period: nat) -> nat {
    ((duration_us + 2 * half_period - 1) / (2 * half_period as int)) as nat
}

impl IdealRun {
    /// The run at the moment the tone is asked for.
    pub open spec fn start_of(frequency_hz: u32, duration_ms: u64, min_sleep_us: u64)
        -> IdealRun {
        IdealRun {
            state: ToneRenderer::start_of(frequency_hz, duration_ms, min_sleep_us),
            now: 0,
            rises: 0,
            falls: 0,
        }
    }

    /// Number of level changes so far.
    pub open spec fn toggles(self) -> nat {
        self.rises + self.falls
    }

    /// The run after the pending operation was carried out.
    pub open spec fn step(self) -> IdealRun {
        match self.state.pending_of() {
            ToneStep::Perform { action } => match action {
                OutputAction::SetHigh => IdealRun {
                    state: self.state.next_of(OutputEvent::Completed),
                    rises: self.rises + 1,
                    ..self
                },
                OutputAction::SetLow => IdealRun {
                    state: self.state.next_of(OutputEvent::Completed),
                    falls: self.falls + 1,
                    ..self
                },
                OutputAction::StartClock => IdealRun {
                    state: self.state.next_of(OutputEvent::Completed),
                    now: 0,
                    ..self
                },
                OutputAction::ReadClock => {
                    let reading = ideal_reading(self.state, self.now);
                    IdealRun {
                        state: self.state.next_of(OutputEvent::Elapsed { micros: reading as u64 }),
                        now: reading,
                        ..self
                    }
                },
                OutputAction::SleepMicros { micros } => IdealRun {
                    state: self.state.next_of(OutputEvent::Completed),
                    now: self.now + micros as nat,
                    ..self
                },
                OutputAction::SleepMillis { millis } => IdealRun {
                    state: self.state.next_of(OutputEvent::Completed),
                    now: self.now + duration_us_of(millis),
                    ..self
                },
            },
            _ => self,
        }
    }

    /// The run after `steps` operations.
    pub open spec fn after(self, steps: nat) -> IdealRun
        decreases steps,
    {
        if steps == 0 {
            self
        } else {
            self.step().after((steps - 1) as nat)
        }
    }
}

/// Number of operations in one full cycle of `wave`.
pub open spec fn steps_per_cycle(wave: WaveTone) -> nat {
    if wave.half_period_us >= wave.min_sleep_us {
        5
    } else {
        7
    }
}

/// Number of operations from the first duration check to the end of a wave
/// that goes through `cycles` full cycles.
pub open spec fn steps_of(wave: WaveTone, cycles: nat) -> nat {
    if wave.half_period_us >= wave.min_sleep_us {
        5 * cycles + 1
    } else {
        7 * cycles + 1
    }
}

proof fn lemma_after_sum(run: IdealRun, a: nat, b: nat)
    ensures
        run.after(a + b) == run.after(a).after(b),
    decreases a,
{
    if a > 0 {
        lemma_after_sum(run.step(), (a - 1) as nat, b);
    }
}

/// One full cycle: the line goes high, stays for a half period, goes low,
/// stays for a half period, and the next duration check is due.
proof fn lemma_cycle(wave: WaveTone, t: nat, rises: nat, falls: nat)
    requires
        wave.step == WaveStep::DurationCheck,
        t < duration_us_of(wave.duration_ms),
        t + 2 * wave.half_period_us <= u64::MAX,
    ensures
        (IdealRun { state: ToneRenderer::Wave { wave }, now: t, rises, falls }).after(
            steps_per_cycle(wave),
        ) == (IdealRun {
            state: ToneRenderer::Wave { wave },
            now: t + 2 * (wave.half_period_us as nat),
            rises: rises + 1,
            falls: falls + 1,
        }),
{
    reveal_with_fuel(IdealRun::after, 8);
    let at = |step: WaveStep| ToneRenderer::Wave { wave: WaveTone { step, ..wave } };
    let half = wave.half_period_us as nat;
    let r0 = IdealRun { state: ToneRenderer::Wave { wave }, now: t, rises, falls };
    let r1 = r0.step();
    assert(r1 == IdealRun { state: at(WaveStep::Write { level: Level::High }), ..r0 });
    let r2 = r1.step();
    if wave.half_period_us >= wave.min_sleep_us {
        assert(r2 == IdealRun {
            state: at(WaveStep::Sleep { level: Level::High }),
            rises: rises + 1,
            ..r0
        });
        let r3 = r2.step();
        assert(r3 == IdealRun {
            state: at(WaveStep::Write { level: Level::Low }),
            now: t + half,
            ..r2
        });
        let r4 = r3.step();
        assert(r4 == IdealRun {
            state: at(WaveStep::Sleep { level: Level::Low }),
            falls: falls + 1,
            ..r3
        });
        let r5 = r4.step();
        assert(r5 == IdealRun { state: at(WaveStep::DurationCheck), now: t + 2 * half, ..r4 });
        assert(at(WaveStep::DurationCheck) == ToneRenderer::Wave { wave });
        assert(r0.after(5) == r5);
    } else {
        assert(r2 == IdealRun {
            state: at(WaveStep::SpinStart { level: Level::High }),
            rises: rises + 1,
            ..r0
        });
        let r3 = r2.step();
        assert(r3 == IdealRun {
            state: at(WaveStep::Spin { level: Level::High, target: (t + half) as u128 }),
            ..r2
        });
        let r4 = r3.step();
        assert(r4 == IdealRun {
            state: at(WaveStep::Write { level: Level::Low }),
            now: t + half,
            ..r3
        });
        let r5 = r4.step();
        assert(r5 == IdealRun {
            state: at(WaveStep::SpinStart { level: Level::Low }),
            falls: falls + 1,
            ..r4
        });
        let r6 = r5.step();
        assert(r6 == IdealRun {
            state: at(WaveStep::Spin { level: Level::Low, target: (t + 2 * half) as u128 }),
            ..r5
        });
        let r7 = r6.step();
        assert(r7 == IdealRun { state: at(WaveStep::DurationCheck), now: t + 2 * half, ..r6 });
        assert(at(WaveStep::DurationCheck) == ToneRenderer::Wave { wave });
        assert(r0.after(7) == r7);
    }
}

/// From a duration check to the end of the wave.
proof fn lemma_wave_run(wave: WaveTone, t: nat, rises: nat, falls: nat)
    requires
        wave.step == WaveStep::DurationCheck,
        wave.half_period_us > 0,
        duration_us_of(wave.duration_ms) + 2 * wave.half_period_us <= u64::MAX,
        t < duration_us_of(wave.duration_ms) + 2 * wave.half_period_us,
    ensures
        ({
            let cycles = cycles_from(
                t,
                duration_us_of(wave.duration_ms),
                wave.half_period_us as nat,
            );
            let end = (IdealRun { state: ToneRenderer::Wave { wave }, now: t, rises, falls }).after(
                steps_of(wave, cycles),
            );
            &&& end.state == ToneRenderer::Finished
            &&& end.rises == rises + cycles
            &&& end.falls == falls + cycles
            &&& end.now == t + 2 * wave.half_period_us * cycles
            &&& end.now >= duration_us_of(wave.duration_ms)
            &&& end.now < duration_us_of(wave.duration_ms) + 2 * wave.half_period_us
        }),
    decreases
            (if t < duration_us_of(wave.duration_ms) {
                duration_us_of(wave.duration_ms) - t
            } else {
                0
            }),
{
    let length = duration_us_of(wave.duration_ms);
    let half = wave.half_period_us as nat;
    let r0 = IdealRun { state: ToneRenderer::Wave { wave }, now: t, rises, falls };
    if t >= length {
        reveal_with_fuel(IdealRun::after, 2);
        assert(r0.after(1) == IdealRun { state: ToneRenderer::Finished, ..r0 });
        assert(2 * half * 0 == 0);
    } else {
        let rest = cycles_from(t + 2 * half, length, half);
        let r1 = IdealRun {
            state: ToneRenderer::Wave { wave },
            now: t + 2 * half,
            rises: rises + 1,
            falls: falls + 1,
        };
        lemma_cycle(wave, t, rises, falls);
        lemma_wave_run(wave, t + 2 * half, rises + 1, falls + 1);
        lemma_after_sum(r0, steps_per_cycle(wave), steps_of(wave, rest));
        assert(steps_of(wave, 1 + rest) == steps_per_cycle(wave) + steps_of(wave, rest));
        assert(2 * half * (1 + rest) == 2 * half + 2 * half * rest) by (nonlinear_arith);
    }
}

/// The number of cycles of a tone that lasts at least as long as asked for
/// and less than one period longer.
proof fn lemma_cycles(cycles: nat, length: nat, half: nat)
    requires
        half > 0,
        length <= 2 * half * cycles < length + 2 * half,
    ensures
        cycles == cycles_of(length, half),
{
    let period = 2 * half as int;
    let rest = length + period - 1 - cycles * period;
    assert(2 * half * cycles == cycles * period) by (nonlinear_arith)
        requires
            period == 2 * half,
    ;
    lemma_fundamental_div_mod_converse(length + period - 1, period, cycles as int, rest);
}

/// Against the ideal line and clock, a tone of a frequency above zero goes
/// through as many full cycles as its length holds periods, rounded up: the
/// line is driven high once and low once per cycle, the tone lasts at least
/// as long as asked for, and less than one period longer. The half period is
/// half a second over the frequency, rounded down to whole microseconds.
///
/// Frequencies above 500 kHz are left out: their half period rounds down to
/// nothing, and a tone whose waits take no time never ends on a clock that
/// only waits move. The bound on the length keeps every clock reading within
/// 64 bits.
///
/// Returns the number of operations after which the tone has ended.
pub proof fn law_wave_cycles(frequency_hz: u32, duration_ms: u64, min_sleep_us: u64) -> (steps:
    nat)
    requires
        0 < frequency_hz <= 500_000,
        duration_us_of(duration_ms) + 2 * half_period_of(frequency_hz) <= u64::MAX,
    ensures
        ({
            let half = half_period_of(frequency_hz);
            let length = duration_us_of(duration_ms);
            let cycles = cycles_of(length, half);
            let end = IdealRun::start_of(frequency_hz, duration_ms, min_sleep_us).after(steps);
            &&& half > 0
            &&& end.state == ToneRenderer::Finished
            &&& end.rises == cycles
            &&& end.falls == cycles
            &&& end.toggles() == 2 * cycles
            &&& end.now == end.toggles() * half
            &&& length <= end.now < length + 2 * half
        }),
{
    let half = half_period_of(frequency_hz);
    let length = duration_us_of(duration_ms);
    assert(half > 0 && half <= 500_000) by {
        assert(500_000int / (frequency_hz as int) >= 1) by (nonlinear_arith)
            requires
                0 < frequency_hz <= 500_000,
        ;
        assert(500_000int / (frequency_hz as int) <= 500_000) by (nonlinear_arith)
            requires
                0 < frequency_hz,
        ;
    }
    let start = IdealRun::start_of(frequency_hz, duration_ms, min_sleep_us);
    let wave = WaveTone {
        half_period_us: half as u64,
        duration_ms,
        min_sleep_us,
        step: WaveStep::DurationCheck,
    };
    let first = IdealRun { state: ToneRenderer::Wave { wave }, now: 0, rises: 0, falls: 0 };
    let cycles = cycles_from(0, length, half);
    reveal_with_fuel(IdealRun::after, 2);
    assert(start.after(1) == first);
    lemma_wave_run(wave, 0, 0, 0);
    lemma_after_sum(start, 1, steps_of(wave, cycles));
    lemma_cycles(cycles, length, half);
    let end = start.after(1 + steps_of(wave, cycles));
    assert(end.toggles() * half == 2 * half * cycles) by (nonlinear_arith)
        requires
            end.toggles() == 2 * cycles,
    ;
    1 + steps_of(wave, cycles)
}

/// Against the ideal line and clock, a tone whose frequency divides half a
/// million, so that its half period is exact, changes level as often as its
/// length holds half periods, rounded up to a whole cycle: the number of
/// level changes is at least `2 * duration_ms * frequency_hz / 1000` and less
/// than two above it.
///
/// Returns the number of operations after which the tone has ended.
pub proof fn law_toggles_near_nominal(frequency_hz: u32, duration_ms: u64, min_sleep_us: u64)
    -> (steps: nat)
    requires
        0 < frequency_hz <= 500_000,
        500_000int % (frequency_hz as int) == 0,
        duration_us_of(duration_ms) + 2 * half_period_of(frequency_hz) <= u64::MAX,
    ensures
        ({
            let end = IdealRun::start_of(frequency_hz, duration_ms, min_sleep_us).after(steps);
            let nominal = 2 * duration_ms * frequency_hz;
            &&& end.state == ToneRenderer::Finished
            &&& end.toggles() % 2 == 0
            &&& nominal <= 1000 * end.toggles() < nominal + 2000
            &&& nominal / 1000 <= end.toggles() <= nominal / 1000 + 2
        }),
{
    let steps = law_wave_cycles(frequency_hz, duration_ms, min_sleep_us);
    let end = IdealRun::start_of(frequency_hz, duration_ms, min_sleep_us).after(steps);
    let half = half_period_of(frequency_hz) as int;
    let toggles = end.toggles() as int;
    let f = frequency_hz as int;
    let d = duration_ms as int;
    assert(half * f == 500_000) by {
        vstd::arithmetic::div_mod::lemma_fundamental_div_mod(500_000, f);
        assert(f * half == half * f) by (nonlinear_arith);
    }
    assert(toggles * 500_000 == (toggles * half) * f) by (nonlinear_arith)
        requires
            half * f == 500_000,
    ;
    assert(1000 * d * f <= (toggles * half) * f) by (nonlinear_arith)
        requires
            1000 * d <= toggles * half,
            f > 0,
    ;
    assert((toggles * half) * f < 1000 * d * f + 1_000_000) by (nonlinear_arith)
        requires
            toggles * half < 1000 * d + 2 * half,
            half * f == 500_000,
            f > 0,
    ;
    assert(2 * d * f == 2 * (d * f) && 1000 * d * f == 1000 * (d * f)) by (nonlinear_arith);
    steps
}

/// Against the ideal line and clock, a tone whose frequency divides half a
/// million, and whose nominal number of cycles `duration_ms * frequency_hz /
/// 1000` is whole or has a fraction of a half or more, changes level within
/// one of `2 * duration_ms * frequency_hz / 1000` times.
///
/// Returns the number of operations after which the tone has ended.
pub proof fn law_toggles_within_one(frequency_hz: u32, duration_ms: u64, min_sleep_us: u64)
    -> (steps: nat)
    requires
        0 < frequency_hz <= 500_000,
        500_000int % (frequency_hz as int) == 0,
        duration_us_of(duration_ms) + 2 * half_period_of(frequency_hz) <= u64::MAX,
        (duration_ms * frequency_hz) % 1000 == 0 || (duration_ms * frequency_hz) % 1000 >= 500,
    ensures
        ({
            let end = IdealRun::start_of(frequency_hz, duration_ms, min_sleep_us).after(steps);
            let nominal = (2 * duration_ms * frequency_hz) / 1000;
            &&& end.state == ToneRenderer::Finished
            &&& nominal - 1 <= end.toggles() <= nominal + 1
        }),
{
    let steps = law_toggles_near_nominal(frequency_hz, duration_ms, min_sleep_us);
    let end = IdealRun::start_of(frequency_hz, duration_ms, min_sleep_us).after(steps);
    let product = duration_ms * frequency_hz;
    assert(2 * duration_ms * frequency_hz == 2 * product) by (nonlinear_arith)
        requires
            product == duration_ms * frequency_hz,
    ;
    assert(product == 1000 * (product / 1000) + product % 1000);
    steps
}

/// Against the ideal line and clock, a tone of frequency zero is one pulse:
/// the line goes high once, stays high for the length of the tone, goes low
/// once, and the tone is over.
pub proof fn law_pulse_shape(duration_ms: u64, min_sleep_us: u64)
    ensures
        ({
            let start = IdealRun::start_of(0, duration_ms, min_sleep_us);
            &&& start.state.pending_of() == ToneStep::Perform { action: OutputAction::SetHigh }
            &&& start.after(1).state.pending_of() == ToneStep::Perform {
                action: OutputAction::SleepMillis { millis: duration_ms },
            }
            &&& start.after(1).rises == 1 && start.after(1).falls == 0 && start.after(1).now == 0
            &&& start.after(2).state.pending_of() == ToneStep::Perform {
                action: OutputAction::SetLow,
            }
            &&& start.after(2).rises == 1 && start.after(2).falls == 0
            &&& start.after(2).now == duration_us_of(duration_ms)
            &&& start.after(3) == IdealRun {
                state: ToneRenderer::Finished,
                now: duration_us_of(duration_ms),
                rises: 1,
                falls: 1,
            }
        }),
{
    reveal_with_fuel(IdealRun::after, 4);
}

/// A tone that has ended asks for nothing more, whatever it is told.
pub proof fn law_ended_stays(state: ToneRenderer, event: OutputEvent)
    requires
        state.ended(),
    ensures
        state.next_of(event) == state,
        !(state.pending_of() is Perform),
{
}

/// A write that fails ends the tone there and then.
pub proof fn law_failed_write_abandons(state: ToneRenderer)
    requires
        state.pending_of() == (ToneStep::Perform { action: OutputAction::SetHigh })
            || state.pending_of() == (ToneStep::Perform { action: OutputAction::SetLow }),
    ensures
        state.next_of(OutputEvent::WriteFailed) == ToneRenderer::Failed,
{
}

} // verus!
