//! A verified model of a small clock-and-blink firmware core: one-shot clock
//! configuration, take-once peripheral acquisition, calendar time conversion,
//! and a fixed-period pin toggle.

pub mod actuation;
pub mod board;
pub mod boot;
pub mod calendar;
pub mod clock;

use vstd::prelude::*;

verus! {

/// Milliseconds that the output pin holds each level before toggling.
pub const HALF_PERIOD_MS: u64 = 500;

/// Number of nanoseconds in one second; bounds the sub-second field of a
/// raw time sample.
pub const NANOS_PER_SEC: u32 = 1_000_000_000;

} // verus!
