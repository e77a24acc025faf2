//! The ways in which a clock configuration request can be refused.

use vstd::prelude::*;

verus! {

/// A request that the clock generator driver refuses. Nothing is written to the register
/// values when one of these is returned.
#[derive(Clone, Copy, Debug, PartialEq, Eq, Structural)]
pub enum ClockError {
    /// No pair of legal PLL divide factors reproduces the ratio `numerator / denominator`.
    UnsolvablePllDivider { numerator: u8, denominator: u8 },
    /// The PLL VCO divide factor (the numerator) is outside `[24, 55]`.
    InvalidPllNumerator(u8),
    /// The PLL reference divide factor (the denominator) is outside `[1, 25]`.
    InvalidPllDenominator(u8),
    /// The external reference divider is not in the table of the current crystal class.
    InvalidExternalClockDivider(u16),
    /// A frequency in MHz does not fit the single byte the PLL divider solver works on.
    FrequencyOutOfRange(u32),
    /// The sampled register fields match none of the known clock modes.
    UnknownClockMode,
    /// A transition finished, but the registers do not show the mode it was meant to reach.
    UnexpectedClockMode,
}

} // verus!
