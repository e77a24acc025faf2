//! Clock bring-up logic for the MK20D7 (Kinetis K20) microcontroller.
//!
//! Every driver in this crate works on plain values that stand for the contents of the
//! peripheral's registers. The caller samples the hardware, hands the sample to the driver,
//! and writes back what the driver decided. Busy-waits are not performed here: a driver
//! operation reports the status condition it waits for, and the multi-step clock mode
//! transitions are resumable state machines that the caller steps with fresh samples.
//!
//! - `mcg`: the registers of the multipurpose clock generator, its modes of operation and
//!   the single driver operations;
//! - `mode`: the modes as tokens, and the transitions from FEI to FBE, PBE and PEE;
//! - `pll`: the solver for the PLL divide factors;
//! - `refdiv`: the FLL external reference divider and its code;
//! - `sim`: the output dividers of the core, bus and flash clocks;
//! - `osc`: the crystal oscillator and its load capacitors;
//! - `serial`: the baud rate divisor of a UART and the answers of its two halves;
//! - `gpio`: the states of a pin as types, and the bits of a pin in the port registers;
//! - `wdog`: the watchdog and its unlock sequence;
//! - `delay`: the reload value of the system timer;
//! - `euclid`: greatest common divisors;
//! - `units`: frequency unit conversions;
//! - `error`: the refusals of the clock generator driver.

pub mod delay;
pub mod error;
pub mod euclid;
pub mod gpio;
pub mod mcg;
pub mod mode;
pub mod osc;
pub mod pll;
pub mod refdiv;
pub mod serial;
pub mod sim;
pub mod units;
pub mod wdog;
