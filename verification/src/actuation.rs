//! The steady-state behaviour: toggle the output pin on a fixed half-period
//! and report the current time each cycle.
//!
//! The toggle is a two-state machine, on and off, that flips on every
//! half-period boundary. Two realizations share this core: a blocking loop
//! that sleeps through each half-period, and a cooperative task that asks a
//! monotonic tick source to wake it at an absolute tick. Both produce the
//! same square wave, because both drive the pin through the same transition
//! function; only the waiting primitive around it differs, and that lives
//! outside this library.

use vstd::prelude::*;
use crate::HALF_PERIOD_MS;
use crate::NANOS_PER_SEC;
use crate::board::OutputPin;
use crate::board::RtcHandle;
use crate::board::TickSource;
use crate::calendar::CalendarTimestamp;
use crate::calendar::ConversionError;
use crate::calendar::in_calendar_range;
use crate::calendar::timestamp_of;
use crate::calendar::to_calendar;
use crate::calendar::valid_timestamp;

verus! {

/// Ticks of a tick source running at `rate_hz` that span one half-period,
/// rounded down to whole ticks.
pub open spec fn half_period_ticks_of(rate_hz: int) -> int {
    rate_hz * (HALF_PERIOD_MS as int) / 1000
}

/// The absolute tick of the `n`-th pin transition after a wave started at
/// tick `start` with `half` ticks per half-period.
pub open spec fn transition_tick(start: int, half: int, n: nat) -> int {
    start + n * half
}

/// Ticks of the tick source `tick` that span one half-period.
pub fn half_period_ticks(tick: &TickSource) -> (r: u64)
    ensures
        r as int == half_period_ticks_of(tick@ as int),
{
    (tick.rate_hz() as u64) * HALF_PERIOD_MS / 1000
}

/// The square wave's spacing is uniform: consecutive transitions are exactly
/// one half-period of ticks apart, for every cycle count; and that
/// half-period misses the ideal `HALF_PERIOD_MS` milliseconds by less than
/// one tick, the tick source's own resolution.
pub proof fn lemma_toggle_timing(start: int, rate_hz: int, n: nat)
    requires
        rate_hz > 0,
    ensures
        transition_tick(start, half_period_ticks_of(rate_hz), n + 1) - transition_tick(
            start,
            half_period_ticks_of(rate_hz),
            n,
        ) == half_period_ticks_of(rate_hz),
        rate_hz * (HALF_PERIOD_MS as int) - 1000 < half_period_ticks_of(rate_hz) * 1000 <= rate_hz
            * (HALF_PERIOD_MS as int),
{
    let half: int = half_period_ticks_of(rate_hz);
    assert((n + 1) * half == n * half + half) by (nonlinear_arith);
    let scaled: int = rate_hz * (HALF_PERIOD_MS as int);
    vstd::arithmetic::div_mod::lemma_fundamental_div_mod(scaled, 1000);
    vstd::arithmetic::div_mod::lemma_mod_bound(scaled, 1000);
}

/// The pin level after `n` half-cycles of a square wave that started at
/// `initial`: unchanged for even `n`, inverted for odd `n`.
pub open spec fn level_after_half_cycles(initial: bool, n: nat) -> bool {
    if n % 2 == 0 {
        initial
    } else {
        !initial
    }
}

/// Each half-cycle inverts the level. Both realizations of the loop satisfy
/// this one transition — the blocking one through `service_cycle`, the
/// cooperative one through `ToggleTask::on_wake` — so both produce the same
/// steady-state square wave.
pub proof fn lemma_square_wave_alternates(initial: bool, n: nat)
    ensures
        level_after_half_cycles(initial, n + 1) == !level_after_half_cycles(initial, n),
{
    assert((n + 1) % 2 == if n % 2 == 0 {
        1int
    } else {
        0int
    });
}

/// One cooperative actuation task: the pin level it drives, the absolute
/// tick it wants to be woken at next, and its half-period in ticks.
pub struct ToggleTask {
    pub level: bool,
    pub next_wake: u64,
    pub half_ticks: u64,
}

impl ToggleTask {
    /// Registers the task against a started tick source: it drives the level
    /// the pin was acquired with and asks to be woken one half-period after
    /// `now`.
    pub fn new(tick: &TickSource, now: u64, initial_level: bool) -> (r: ToggleTask)
        requires
            now + half_period_ticks_of(tick@ as int) <= u64::MAX,
        ensures
            r.level == initial_level,
            r.half_ticks as int == half_period_ticks_of(tick@ as int),
            r.next_wake as int == transition_tick(
                now as int,
                half_period_ticks_of(tick@ as int),
                1,
            ),
    {
        let half: u64 = half_period_ticks(tick);
        ToggleTask { level: initial_level, next_wake: now + half, half_ticks: half }
    }

    /// One wake of the task: flip the level, drive the pin to it, and move
    /// the wake tick forward by exactly one half-period.
    pub fn on_wake(&mut self, pin: &mut OutputPin)
        requires
            old(self).next_wake + old(self).half_ticks <= u64::MAX,
        ensures
            final(self).level == !old(self).level,
            final(pin)@ == final(self).level,
            final(self).next_wake == old(self).next_wake + old(self).half_ticks,
            final(self).half_ticks == old(self).half_ticks,
    {
        self.level = !self.level;
        if self.level {
            pin.set_high();
        } else {
            pin.set_low();
        }
        self.next_wake = self.next_wake + self.half_ticks;
    }
}

/// Runs `n` consecutive wakes of a toggle task, as the cooperative scheduler
/// does one per half-period boundary. Afterwards the wake tick has advanced
/// by exactly `n` half-periods — consecutive transitions stay one
/// half-period apart across the whole run — and the level follows the
/// square-wave alternation law.
pub fn run_wakes(task: &mut ToggleTask, pin: &mut OutputPin, n: u32)
    requires
        old(task).next_wake as int + (n as int) * (old(task).half_ticks as int) <= u64::MAX,
    ensures
        final(task).half_ticks == old(task).half_ticks,
        final(task).next_wake as int == old(task).next_wake as int + (n as int) * (old(
            task,
        ).half_ticks as int),
        final(task).level == level_after_half_cycles(old(task).level, n as nat),
        n > 0 ==> final(pin)@ == final(task).level,
        n == 0 ==> *final(pin) == *old(pin),
{
    let mut i: u32 = 0;
    while i < n
        invariant
            i <= n,
            task.half_ticks == old(task).half_ticks,
            task.next_wake as int == old(task).next_wake as int + (i as int) * (task.half_ticks
                as int),
            old(task).next_wake as int + (n as int) * (task.half_ticks as int) <= u64::MAX,
            task.level == level_after_half_cycles(old(task).level, i as nat),
            i > 0 ==> pin@ == task.level,
            i == 0 ==> *pin == *old(pin),
        decreases n as int - i as int,
    {
        proof {
            assert((i as int + 1) * (task.half_ticks as int) <= (n as int) * (task.half_ticks
                as int) && (i as int + 1) * (task.half_ticks as int) == (i as int) * (
            task.half_ticks as int) + task.half_ticks as int) by (nonlinear_arith)
                requires
                    i as int + 1 <= n as int,
                    task.half_ticks as int >= 0,
            ;
            lemma_square_wave_alternates(old(task).level, i as nat);
        }
        task.on_wake(pin);
        i = i + 1;
    }
}

/// One reporting step: sample the clock and convert the sample, then flip
/// the pin, unconditionally. A conversion failure skips only the report; the
/// pin toggles on schedule either way, since the toggle is the primary
/// observable behaviour and must never be gated on a successful time read.
pub fn service_cycle(pin: &mut OutputPin, rtc: &RtcHandle) -> (r: Result<
    CalendarTimestamp,
    ConversionError,
>)
    requires
        rtc@.subsec_nanos < NANOS_PER_SEC,
    ensures
        final(pin)@ == !old(pin)@,
        r is Ok <==> in_calendar_range(rtc@.seconds_since_epoch as int),
        r matches Ok(c) ==> valid_timestamp(c) && timestamp_of(c) == rtc@.seconds_since_epoch
            as int && c.subsec_nanos == rtc@.subsec_nanos,
        r is Err ==> r == Err::<CalendarTimestamp, ConversionError>(
            ConversionError::YearOutOfRange,
        ),
{
    let sample = rtc.sample();
    let report = to_calendar(&sample);
    if pin.is_set_high() {
        pin.set_low();
    } else {
        pin.set_high();
    }
    report
}

} // verus!
