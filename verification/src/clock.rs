//! One-shot system clock configuration.
//!
//! The clock tree derives the core frequency from a single oscillator, either
//! the internal one at a fixed rate or an external crystal, through a
//! multiplier/divisor pair with small hardware-supported factors. A requested
//! configuration either yields exactly the requested frequencies or is
//! rejected; nothing is silently clamped.

use vstd::prelude::*;

verus! {

/// Frequency of the internal oscillator, in hertz.
pub const INTERNAL_OSC_HZ: u32 = 16_000_000;

/// Largest multiplier the frequency-scaling hardware supports.
pub const MAX_PLL_MUL: u64 = 48;

/// Largest divisor the frequency-scaling hardware supports.
pub const MAX_PLL_DIV: u64 = 4;

/// The oscillator the clock tree is driven from.
#[derive(Clone, Copy, PartialEq, Eq, Structural, Debug)]
pub enum OscillatorSource {
    /// The internal oscillator, running at `INTERNAL_OSC_HZ`.
    Internal,
    /// An external crystal with the given frequency in hertz.
    ExternalCrystal(u32),
}

/// A requested clock configuration: one oscillator source and the target
/// core and peripheral-bus frequencies, all in hertz.
#[derive(Clone, Copy, PartialEq, Eq, Structural, Debug)]
pub struct ClockConfig {
    pub source: OscillatorSource,
    pub sysclk_hz: u32,
    pub pclk_hz: u32,
}

/// The frequencies the clock tree actually runs at after configuration.
#[derive(Clone, Copy, PartialEq, Eq, Structural, Debug)]
pub struct Clocks {
    pub source_hz: u32,
    pub sysclk_hz: u32,
    pub pclk_hz: u32,
}

/// Why a clock configuration was rejected.
#[derive(Clone, Copy, PartialEq, Eq, Structural, Debug)]
pub enum ConfigError {
    /// The requested core frequency cannot be derived from the source by any
    /// supported multiplier/divisor pair.
    UnattainableSysclk,
    /// The requested peripheral-bus frequency is not a divisor of the core
    /// frequency.
    UnattainablePclk,
}

impl ClockConfig {
    /// The frequency of the configured oscillator source, in hertz.
    pub open spec fn spec_source_hz(self) -> int {
        match self.source {
            OscillatorSource::Internal => INTERNAL_OSC_HZ as int,
            OscillatorSource::ExternalCrystal(hz) => hz as int,
        }
    }

    /// The frequency of the configured oscillator source, in hertz.
    pub fn source_hz(&self) -> (hz: u32)
        ensures
            hz as int == self.spec_source_hz(),
    {
        match self.source {
            OscillatorSource::Internal => INTERNAL_OSC_HZ,
            OscillatorSource::ExternalCrystal(hz) => hz,
        }
    }
}

/// The core frequency `sys` is attainable from the source frequency `src`
/// when some supported divisor `d` makes `sys * d` an exact multiple of
/// `src` with a supported multiplier as the quotient; the hardware then runs
/// the core at `src * mul / d == sys` exactly.
pub open spec fn sysclk_attainable(src: int, sys: int) -> bool {
    &&& src > 0
    &&& sys > 0
    &&& exists|d: int|
        1 <= d <= MAX_PLL_DIV && #[trigger] ((sys * d) % src) == 0 && 1 <= (sys * d) / src
            <= MAX_PLL_MUL
}

/// A whole configuration is attainable when the core frequency can be derived
/// from the source and the peripheral-bus frequency divides the core
/// frequency exactly.
pub open spec fn config_attainable(cfg: ClockConfig) -> bool {
    &&& sysclk_attainable(cfg.spec_source_hz(), cfg.sysclk_hz as int)
    &&& cfg.pclk_hz > 0
    &&& (cfg.sysclk_hz as int) % (cfg.pclk_hz as int) == 0
}

/// Derives the core and peripheral-bus frequencies from the configured
/// source and reports them, or rejects a configuration the hardware cannot
/// realise. Succeeds exactly on attainable configurations, and then reports
/// the requested frequencies without adjustment.
pub fn configure(cfg: &ClockConfig) -> (r: Result<Clocks, ConfigError>)
    ensures
        r is Ok <==> config_attainable(*cfg),
        r matches Ok(c) ==> c == (Clocks {
            source_hz: (cfg.spec_source_hz() as u32),
            sysclk_hz: cfg.sysclk_hz,
            pclk_hz: cfg.pclk_hz,
        }),
        r matches Err(e) ==> (e == ConfigError::UnattainableSysclk <==> !sysclk_attainable(
            cfg.spec_source_hz(),
            cfg.sysclk_hz as int,
        )),
{
    let src: u32 = cfg.source_hz();
    if !sysclk_reachable(src, cfg.sysclk_hz) {
        return Err(ConfigError::UnattainableSysclk);
    }
    if cfg.pclk_hz == 0 || cfg.sysclk_hz % cfg.pclk_hz != 0 {
        return Err(ConfigError::UnattainablePclk);
    }
    Ok(Clocks { source_hz: src, sysclk_hz: cfg.sysclk_hz, pclk_hz: cfg.pclk_hz })
}

/// Searches the supported divisors for one that derives `sys` from `src`.
fn sysclk_reachable(src: u32, sys: u32) -> (r: bool)
    ensures
        r == sysclk_attainable(src as int, sys as int),
{
    if src == 0 || sys == 0 {
        return false;
    }
    let mut d: u64 = 1;
    while d <= MAX_PLL_DIV
        invariant
            1 <= d <= MAX_PLL_DIV + 1,
            src > 0,
            sys > 0,
            forall|dd: int|
                1 <= dd < d ==> !(#[trigger] ((sys as int * dd) % (src as int)) == 0 && 1 <= (sys
                    as int * dd) / (src as int) <= MAX_PLL_MUL),
        decreases MAX_PLL_DIV + 1 - d,
    {
        proof {
            assert((sys as u64) * d <= (u32::MAX as u64) * MAX_PLL_DIV) by (nonlinear_arith)
                requires
                    sys as u64 <= u32::MAX as u64,
                    1 <= d <= MAX_PLL_DIV,
            ;
        }
        let scaled: u64 = (sys as u64) * d;
        if scaled % (src as u64) == 0 {
            let mul: u64 = scaled / (src as u64);
            if 1 <= mul && mul <= MAX_PLL_MUL {
                assert((sys as int * d as int) % (src as int) == 0 && 1 <= (sys as int * d as int)
                    / (src as int) <= MAX_PLL_MUL) by {
                    assert(scaled as int == sys as int * d as int);
                    assert(scaled as int % (src as int) == 0);
                    assert(scaled as int / (src as int) == mul as int);
                };
                return true;
            }
        }
        d = d + 1;
    }
    false
}

} // verus!
