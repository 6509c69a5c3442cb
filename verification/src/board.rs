//! Take-once acquisition of the singleton hardware resources, and the boot
//! ordering between clock configuration and everything that depends on it.
//!
//! A `Board` stands for the one set of peripherals the device has. Each
//! resource is handed out as an exclusively owned handle by a one-shot take
//! operation: a second take of the same resource is rejected, and no resource
//! can be taken before the clock tree has been configured, so nothing
//! time-dependent ever runs off an unconfigured clock.

use vstd::prelude::*;
use crate::clock::ClockConfig;
use crate::clock::Clocks;
use crate::clock::ConfigError;
use crate::clock::config_attainable;
use crate::clock::configure;
use crate::clock::sysclk_attainable;
use crate::calendar::RawTimeSample;
use crate::NANOS_PER_SEC;

verus! {

/// Why acquiring a resource or starting the tick source failed.
#[derive(Clone, Copy, PartialEq, Eq, Structural, Debug)]
pub enum AcquireError {
    /// The resource was already handed out earlier in this boot.
    AlreadyTaken,
    /// The clock tree has not been configured yet, so the resource's timing
    /// would be undefined.
    ClockNotConfigured,
}

/// An exclusively owned digital output pin, configured push-pull on
/// acquisition with its level driven high.
pub struct OutputPin {
    level: bool,
}

impl View for OutputPin {
    type V = bool;

    /// The pin's logic level: `true` is high, `false` is low.
    closed spec fn view(&self) -> bool {
        self.level
    }
}

impl OutputPin {
    /// Drives the pin high.
    pub fn set_high(&mut self)
        ensures
            final(self)@ == true,
    {
        self.level = true;
    }

    /// Drives the pin low.
    pub fn set_low(&mut self)
        ensures
            final(self)@ == false,
    {
        self.level = false;
    }

    /// Whether the pin is currently driven high.
    pub fn is_set_high(&self) -> (r: bool)
        ensures
            r == self@,
    {
        self.level
    }
}

/// An exclusively owned handle to the real-time clock block. It buffers the
/// counter value most recently latched from the hardware register; sampling
/// reads that buffered value.
pub struct RtcHandle {
    seconds: u64,
    subsec_nanos: u32,
}

impl View for RtcHandle {
    type V = RawTimeSample;

    /// The buffered counter value as a raw time sample.
    closed spec fn view(&self) -> RawTimeSample {
        RawTimeSample { seconds_since_epoch: self.seconds, subsec_nanos: self.subsec_nanos }
    }
}

impl RtcHandle {
    /// Latches a counter reading into the handle.
    pub fn latch(&mut self, seconds: u64, subsec_nanos: u32)
        requires
            subsec_nanos < NANOS_PER_SEC,
        ensures
            final(self)@ == (RawTimeSample { seconds_since_epoch: seconds, subsec_nanos }),
    {
        self.seconds = seconds;
        self.subsec_nanos = subsec_nanos;
    }

    /// A non-blocking read of the current counter value.
    pub fn sample(&self) -> (r: RawTimeSample)
        ensures
            r == self@,
    {
        RawTimeSample { seconds_since_epoch: self.seconds, subsec_nanos: self.subsec_nanos }
    }
}

/// An exclusively owned handle to the power-control block, which gates
/// write access to the real-time clock domain.
pub struct PowerControl {
    gate: bool,
}

impl View for PowerControl {
    type V = bool;

    /// Whether the clock domain gate is open.
    closed spec fn view(&self) -> bool {
        self.gate
    }
}

impl PowerControl {
    /// Whether the handle gates the clock domain open.
    pub fn is_enabled(&self) -> (r: bool)
        ensures
            r == self@,
    {
        self.gate
    }
}

/// A started monotonic tick source: a free-running counter at a fixed rate,
/// used to measure elapsed time without blocking.
pub struct TickSource {
    rate_hz: u32,
}

impl View for TickSource {
    type V = u32;

    /// The counting rate in ticks per second.
    closed spec fn view(&self) -> u32 {
        self.rate_hz
    }
}

impl TickSource {
    /// The counting rate in ticks per second.
    pub fn rate_hz(&self) -> (r: u32)
        ensures
            r == self@,
    {
        self.rate_hz
    }
}

/// What the board remembers of the boot sequence: whether the clock tree is
/// configured, and which singleton resources have been handed out.
#[derive(Clone, Copy, PartialEq, Eq, Structural, Debug)]
pub struct BoardState {
    pub clock_configured: bool,
    pub pin_taken: bool,
    pub rtc_taken: bool,
    pub power_taken: bool,
    pub tick_started: bool,
}

/// The device's singleton peripherals, before and during boot.
pub struct Board {
    state: BoardState,
}

/// The boot state with nothing configured and nothing handed out.
pub open spec fn initial_board_state() -> BoardState {
    BoardState {
        clock_configured: false,
        pin_taken: false,
        rtc_taken: false,
        power_taken: false,
        tick_started: false,
    }
}

/// Whether a take of a resource with taken-flag `taken` succeeds in state
/// `s`: only once the clock is configured, and only the first time.
pub open spec fn take_allowed(s: BoardState, taken: bool) -> bool {
    s.clock_configured && !taken
}

/// The error a rejected take reports: a missing clock configuration is
/// diagnosed before double acquisition.
pub open spec fn take_error(s: BoardState, taken: bool) -> AcquireError {
    if !s.clock_configured {
        AcquireError::ClockNotConfigured
    } else {
        AcquireError::AlreadyTaken
    }
}

impl View for Board {
    type V = BoardState;

    closed spec fn view(&self) -> BoardState {
        self.state
    }
}

impl Board {
    /// The one board of the device, fresh out of reset.
    pub fn new() -> (r: Board)
        ensures
            r@ == initial_board_state(),
    {
        Board { state: BoardState {
            clock_configured: false,
            pin_taken: false,
            rtc_taken: false,
            power_taken: false,
            tick_started: false,
        } }
    }

    /// Programs the clock tree from `cfg`, exactly once. Succeeds exactly
    /// when the configuration is attainable and no earlier configuration
    /// took effect; on success the board becomes clock-configured and the
    /// reported frequencies are exactly the requested ones.
    pub fn configure_clocks(&mut self, cfg: &ClockConfig) -> (r: Result<Clocks, ConfigError>)
        requires
            !old(self)@.clock_configured,
        ensures
            r is Ok <==> config_attainable(*cfg),
            r matches Ok(c) ==> c == (Clocks {
                source_hz: (cfg.spec_source_hz() as u32),
                sysclk_hz: cfg.sysclk_hz,
                pclk_hz: cfg.pclk_hz,
            }),
            r matches Err(e) ==> (e == ConfigError::UnattainableSysclk <==> !sysclk_attainable(
                cfg.spec_source_hz(),
                cfg.sysclk_hz as int,
            )),
            final(self)@ == (BoardState { clock_configured: r is Ok, ..old(self)@ }),
    {
        let r = configure(cfg);
        if r.is_ok() {
            self.state.clock_configured = true;
        }
        r
    }

    /// Hands out the output pin, push-pull with its level set high, so the
    /// pin is never observed in an undefined state. One-shot: succeeds
    /// exactly when the clock is configured and the pin was not taken yet.
    pub fn take_output_pin(&mut self) -> (r: Result<OutputPin, AcquireError>)
        ensures
            r is Ok <==> take_allowed(old(self)@, old(self)@.pin_taken),
            r matches Ok(pin) ==> pin@ == true,
            r matches Err(e) ==> e == take_error(old(self)@, old(self)@.pin_taken),
            final(self)@ == (BoardState { pin_taken: old(self)@.pin_taken || r is Ok, ..old(
                self,
            )@ }),
    {
        if !self.state.clock_configured {
            return Err(AcquireError::ClockNotConfigured);
        }
        if self.state.pin_taken {
            return Err(AcquireError::AlreadyTaken);
        }
        self.state.pin_taken = true;
        Ok(OutputPin { level: true })
    }

    /// Hands out the real-time clock block, its buffered counter starting at
    /// the power-on epoch. One-shot, like every take.
    pub fn take_rtc(&mut self) -> (r: Result<RtcHandle, AcquireError>)
        ensures
            r is Ok <==> take_allowed(old(self)@, old(self)@.rtc_taken),
            r matches Ok(rtc) ==> rtc@ == (RawTimeSample { seconds_since_epoch: 0, subsec_nanos: 0 }),
            r matches Err(e) ==> e == take_error(old(self)@, old(self)@.rtc_taken),
            final(self)@ == (BoardState { rtc_taken: old(self)@.rtc_taken || r is Ok, ..old(
                self,
            )@ }),
    {
        if !self.state.clock_configured {
            return Err(AcquireError::ClockNotConfigured);
        }
        if self.state.rtc_taken {
            return Err(AcquireError::AlreadyTaken);
        }
        self.state.rtc_taken = true;
        Ok(RtcHandle { seconds: 0, subsec_nanos: 0 })
    }

    /// Hands out the power-control block with the clock domain gated open.
    /// One-shot, like every take.
    pub fn take_power_control(&mut self) -> (r: Result<PowerControl, AcquireError>)
        ensures
            r is Ok <==> take_allowed(old(self)@, old(self)@.power_taken),
            r matches Ok(pc) ==> pc@ == true,
            r matches Err(e) ==> e == take_error(old(self)@, old(self)@.power_taken),
            final(self)@ == (BoardState { power_taken: old(self)@.power_taken || r is Ok, ..old(
                self,
            )@ }),
    {
        if !self.state.clock_configured {
            return Err(AcquireError::ClockNotConfigured);
        }
        if self.state.power_taken {
            return Err(AcquireError::AlreadyTaken);
        }
        self.state.power_taken = true;
        Ok(PowerControl { gate: true })
    }

    /// Starts the monotonic tick source counting at `rate_hz`. Starting it
    /// before the clock tree is configured is rejected, and it can be
    /// started at most once.
    pub fn start_tick_source(&mut self, rate_hz: u32) -> (r: Result<TickSource, AcquireError>)
        requires
            rate_hz > 0,
        ensures
            r is Ok <==> take_allowed(old(self)@, old(self)@.tick_started),
            r matches Ok(tick) ==> tick@ == rate_hz,
            r matches Err(e) ==> e == take_error(old(self)@, old(self)@.tick_started),
            final(self)@ == (BoardState { tick_started: old(self)@.tick_started || r is Ok, ..old(
                self,
            )@ }),
    {
        if !self.state.clock_configured {
            return Err(AcquireError::ClockNotConfigured);
        }
        if self.state.tick_started {
            return Err(AcquireError::AlreadyTaken);
        }
        self.state.tick_started = true;
        Ok(TickSource { rate_hz })
    }
}

/// Taking the same resource twice never succeeds twice: a successful take
/// sets the resource's taken-flag and leaves the clock configured, and in
/// every such state a further take of that resource is rejected as already
/// taken.
pub proof fn lemma_second_take_already_taken(s: BoardState)
    ensures
        !take_allowed(s, true),
        s.clock_configured ==> take_error(s, true) == AcquireError::AlreadyTaken,
{
}

/// The tick source cannot be started before clock configuration: in any
/// state where the clock is unconfigured, starting it is rejected with
/// `ClockNotConfigured`, never silently allowed.
pub proof fn lemma_tick_start_needs_clock(s: BoardState)
    requires
        !s.clock_configured,
    ensures
        !take_allowed(s, s.tick_started),
        take_error(s, s.tick_started) == AcquireError::ClockNotConfigured,
{
}

} // verus!
