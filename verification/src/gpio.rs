//! The states of a pin, as types: a pin carries its mode in its type, so that an operation
//! is offered only on a pin that is in the mode for it.

use core::marker::PhantomData;
use vstd::prelude::*;

verus! {

/// Input mode (type state)
pub struct Input<MODE> {
    _mode: PhantomData<MODE>,
}

/// Floating input (type state)
pub struct Floating;

/// Pulled down input (type state)
pub struct PullDown;

/// Pulled up input (type state)
pub struct PullUp;

/// Output mode (type state)
pub struct Output<MODE> {
    _mode: PhantomData<MODE>,
}

/// Push pull output (type state)
pub struct PushPull;

/// Open drain output (type state)
pub struct OpenDrain;

/// Alternate function mode (type state)
pub struct Alternate<MODE> {
    _mode: PhantomData<MODE>,
}

/// Alternate function 0 (type state, Analog)
pub struct ALT0;

/// Alternate function 1 (type state, GPIO)
pub struct ALT1;

/// Alternate function 2 (type state, chip specific)
pub struct ALT2;

/// Alternate function 3 (type state, chip specific)
pub struct ALT3;

/// Alternate function 4 (type state, chip specific)
pub struct ALT4;

/// Alternate function 5 (type state, chip specific)
pub struct ALT5;

/// Alternate function 6 (type state, chip specific)
pub struct ALT6;

/// Alternate function 7 (type state, chip specific / JTAG / NMI)
pub struct ALT7;

/// Pin mux controller mode
#[derive(Clone, Copy, Debug, PartialEq, Eq, Structural)]
pub enum PinMux {
    ALT0,
    ALT1,
    ALT2,
    ALT3,
    ALT4,
    ALT5,
    ALT6,
    ALT7,
}

/// Pin mode (when pin is in ALT1 gpio mode)
#[derive(Clone, Copy, Debug, PartialEq, Eq, Structural)]
pub enum PinMode {
    Output,
    Input,
}

/// The number of pins of a port.
pub const PORT_PINS: u32 = 32;

impl PinMux {
    /// The three-bit code of the alternate function in the `MUX` field of a pin control
    /// register: alternate function `n` has code `n`.
    pub open spec fn code(self) -> int {
        match self {
            PinMux::ALT0 => 0,
            PinMux::ALT1 => 1,
            PinMux::ALT2 => 2,
            PinMux::ALT3 => 3,
            PinMux::ALT4 => 4,
            PinMux::ALT5 => 5,
            PinMux::ALT6 => 6,
            PinMux::ALT7 => 7,
        }
    }

    /// The three-bit code of the alternate function.
    pub fn to_code(&self) -> (code: u8)
        ensures
            code == self.code(),
    {
        match self {
            PinMux::ALT0 => 0,
            PinMux::ALT1 => 1,
            PinMux::ALT2 => 2,
            PinMux::ALT3 => 3,
            PinMux::ALT4 => 4,
            PinMux::ALT5 => 5,
            PinMux::ALT6 => 6,
            PinMux::ALT7 => 7,
        }
    }
}

/// The word that has bit `pin` set and no other: what is written to the set, clear and
/// toggle registers of a port to act on that one pin.
pub fn pin_mask(pin: u32) -> (mask: u32)
    requires
        pin < PORT_PINS,
    ensures
        mask == 1u32 << pin,
{
    1u32 << pin
}

/// Whether bit `pin` of the port data word `bits` is clear: the pin is low.
pub fn pin_is_low(bits: u32, pin: u32) -> (low: bool)
    requires
        pin < PORT_PINS,
    ensures
        low == (bits & (1u32 << pin) == 0),
{
    bits & (1u32 << pin) == 0
}

/// The data direction word of a port after `pin` is put into `pin_mode`: the word as it
/// was, with the bits of the mode's mask set in addition. The mask of the output mode is
/// bit `pin` alone; the mask of the input mode is every bit but `pin`.
pub fn pin_mode_bits(direction: u32, pin: u32, pin_mode: PinMode) -> (bits: u32)
    requires
        pin < PORT_PINS,
    ensures
        pin_mode == PinMode::Output ==> bits == direction | (1u32 << pin),
        pin_mode == PinMode::Input ==> bits == direction | !(1u32 << pin),
{
    let bit = match pin_mode {
        PinMode::Output => 1u32 << pin,
        PinMode::Input => !(1u32 << pin),
    };
    direction | bit
}

} // verus!
