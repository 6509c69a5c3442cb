//! The boot sequence: clock configuration, then peripheral acquisition, then
//! tick-source start, in that order and each exactly once.
//!
//! The order is a hard precedence constraint: every later step calls into
//! the board, and the board rejects any acquisition or tick start while the
//! clock tree is unconfigured. A failed step is fatal at boot; there is no
//! retry and no degraded mode, because continuing with unconfigured timing
//! hardware would corrupt every downstream timestamp and delay.

use vstd::prelude::*;
use crate::board::Board;
use crate::board::BoardState;
use crate::board::OutputPin;
use crate::board::PowerControl;
use crate::board::RtcHandle;
use crate::board::TickSource;
use crate::board::AcquireError;
use crate::board::initial_board_state;
use crate::clock::ClockConfig;
use crate::clock::Clocks;
use crate::clock::ConfigError;
use crate::clock::config_attainable;
use crate::clock::sysclk_attainable;
use crate::calendar::RawTimeSample;

verus! {

/// Why boot failed. Every variant is fatal: the caller's only move is to
/// abort.
#[derive(Clone, Copy, PartialEq, Eq, Structural, Debug)]
pub enum BootError {
    /// The clock tree rejected the requested configuration.
    Config(ConfigError),
    /// A singleton resource could not be acquired.
    Acquire(AcquireError),
}

/// Everything the steady-state loop owns once boot has finished.
pub struct BootedSystem {
    /// The frequencies the clock tree runs at.
    pub clocks: Clocks,
    /// The output pin, already driven high.
    pub pin: OutputPin,
    /// The real-time clock.
    pub rtc: RtcHandle,
    /// The power-control block gating the clock domain.
    pub power: PowerControl,
    /// The monotonic tick source, counting at the core frequency.
    pub tick: TickSource,
}

/// The board state after a complete boot: clock configured, every singleton
/// handed out, tick source running.
pub open spec fn booted_board_state() -> BoardState {
    BoardState {
        clock_configured: true,
        pin_taken: true,
        rtc_taken: true,
        power_taken: true,
        tick_started: true,
    }
}

/// Boots a fresh board: programs the clock tree from `cfg`, acquires the
/// output pin (driving it high), the power-control block and the real-time
/// clock, and starts the tick source at the core frequency. Succeeds exactly
/// when the clock configuration is attainable; the first failing step's
/// error is reported and no later step runs.
pub fn boot(board: &mut Board, cfg: &ClockConfig) -> (r: Result<BootedSystem, BootError>)
    requires
        old(board)@ == initial_board_state(),
    ensures
        r is Ok <==> config_attainable(*cfg),
        r matches Ok(sys) ==> {
            &&& sys.clocks == (Clocks {
                source_hz: (cfg.spec_source_hz() as u32),
                sysclk_hz: cfg.sysclk_hz,
                pclk_hz: cfg.pclk_hz,
            })
            &&& sys.pin@ == true
            &&& sys.rtc@ == (RawTimeSample { seconds_since_epoch: 0, subsec_nanos: 0 })
            &&& sys.power@ == true
            &&& sys.tick@ == cfg.sysclk_hz
            &&& final(board)@ == booted_board_state()
        },
        r matches Err(e) ==> (match e {
            BootError::Config(ce) => !config_attainable(*cfg) && (ce
                == ConfigError::UnattainableSysclk <==> !sysclk_attainable(
                cfg.spec_source_hz(),
                cfg.sysclk_hz as int,
            )),
            BootError::Acquire(_) => false,
        }),
{
    let clocks = match board.configure_clocks(cfg) {
        Ok(c) => c,
        Err(e) => {
            return Err(BootError::Config(e));
        },
    };
    let pin = match board.take_output_pin() {
        Ok(p) => p,
        Err(e) => {
            return Err(BootError::Acquire(e));
        },
    };
    let power = match board.take_power_control() {
        Ok(p) => p,
        Err(e) => {
            return Err(BootError::Acquire(e));
        },
    };
    let rtc = match board.take_rtc() {
        Ok(h) => h,
        Err(e) => {
            return Err(BootError::Acquire(e));
        },
    };
    let tick = match board.start_tick_source(clocks.sysclk_hz) {
        Ok(t) => t,
        Err(e) => {
            return Err(BootError::Acquire(e));
        },
    };
    Ok(BootedSystem { clocks, pin, rtc, power, tick })
}

} // verus!
