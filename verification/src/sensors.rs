//! Sensor decision predicates. The hardware layer samples the analog line
//! channel and reads the proximity pins; the functions here turn those raw
//! values into the boolean signals the arbitration loop races.

use vstd::prelude::*;

verus! {

/// Analog samples below this value mean the line sensor sees the line.
pub const LINE_COLOR_THRESHOLD: u16 = 141;

/// The level of a digital input pin at the instant it was read.
#[derive(Clone, Copy, PartialEq, Eq, Structural, Debug)]
pub enum PinLevel {
    Low,
    High,
}

/// A single analog sample signals the line exactly when it is below the
/// threshold; there is no hysteresis.
pub open spec fn line_on(sample: u16) -> bool {
    sample < LINE_COLOR_THRESHOLD
}

/// The proximity and digital line inputs are active-low: a low pin level
/// means the signal is present.
pub open spec fn active(level: PinLevel) -> bool {
    level is Low
}

/// Whether an analog sample from the line channel signals the line.
pub fn line_detected(sample: u16) -> (r: bool)
    ensures
        r == line_on(sample),
{
    sample < LINE_COLOR_THRESHOLD
}

/// Whether a proximity pin's level signals an obstacle in range.
pub fn object_detected(level: PinLevel) -> (r: bool)
    ensures
        r == active(level),
{
    matches!(level, PinLevel::Low)
}

/// Whether the digital line pin's level signals the line.
pub fn line_detected_dig(level: PinLevel) -> (r: bool)
    ensures
        r == active(level),
{
    matches!(level, PinLevel::Low)
}

} // verus!
