//! The system integration module: the output dividers of the core, bus and flash clocks.
//!
//! Each divider is a whole number from 1 to 16 and is held by the hardware in a four-bit
//! field whose code is the divider minus one.

use vstd::prelude::*;

verus! {

/// The highest core clock frequency the platform supports, in MHz.
pub const MAXIMUM_CLOCK_FREQUENCY: i8 = 72;

/// The smallest output divider.
pub const DIVIDER_MIN: i8 = 1;

/// The largest output divider.
pub const DIVIDER_MAX: i8 = 16;

/// An output divider that the hardware cannot represent.
#[derive(Clone, Copy, Debug, PartialEq, Eq, Structural)]
pub enum DividerError {
    /// The core clock divider is outside `[1, 16]`.
    Core(i8),
    /// The bus clock divider is outside `[1, 16]`.
    Bus(i8),
    /// The flash clock divider is outside `[1, 16]`.
    Flash(i8),
}

/// The divider fields of the clock divider register 1, as their four-bit codes.
#[derive(Clone, Copy, Debug, PartialEq, Eq, Structural)]
pub struct ClockDividerRegister {
    /// `OUTDIV1`: the code of the core clock divider.
    pub outdiv1: u8,
    /// `OUTDIV2`: the code of the bus clock divider.
    pub outdiv2: u8,
    /// `OUTDIV4`: the code of the flash clock divider.
    pub outdiv4: u8,
}

/// The values an output divider may take.
pub open spec fn is_divider(value: int) -> bool {
    DIVIDER_MIN <= value <= DIVIDER_MAX
}

/// The values a four-bit divider field may hold.
pub open spec fn is_divider_code(code: int) -> bool {
    0 <= code < 16
}

/// The code the hardware holds for a divider.
pub open spec fn divider_code(value: int) -> int {
    value - 1
}

/// The divider that a code stands for.
pub open spec fn code_divider(code: int) -> int {
    code + 1
}

impl ClockDividerRegister {
    /// Each field holds a four-bit code.
    pub open spec fn wf(self) -> bool {
        &&& is_divider_code(self.outdiv1 as int)
        &&& is_divider_code(self.outdiv2 as int)
        &&& is_divider_code(self.outdiv4 as int)
    }

    /// The core, bus and flash dividers that the fields stand for.
    pub open spec fn dividers(self) -> (int, int, int) {
        (
            code_divider(self.outdiv1 as int),
            code_divider(self.outdiv2 as int),
            code_divider(self.outdiv4 as int),
        )
    }

    /// The field contents that stand for the three dividers.
    pub open spec fn encoding(core: int, bus: int, flash: int) -> ClockDividerRegister {
        ClockDividerRegister {
            outdiv1: divider_code(core) as u8,
            outdiv2: divider_code(bus) as u8,
            outdiv4: divider_code(flash) as u8,
        }
    }

    /// Whether each field holds a four-bit code.
    pub fn is_valid(&self) -> (valid: bool)
        ensures
            valid == self.wf(),
    {
        self.outdiv1 < 16 && self.outdiv2 < 16 && self.outdiv4 < 16
    }
}

/// Encodes a divider as its four-bit code, `value - 1`. Values outside `[1, 16]` have no
/// code.
pub fn encode_divider(value: i8) -> (code: Option<u8>)
    ensures
        is_divider(value as int) ==> code == Some(divider_code(value as int) as u8),
        !is_divider(value as int) ==> code.is_none(),
        code.is_some() ==> is_divider_code(code.unwrap() as int),
{
    if DIVIDER_MIN <= value && value <= DIVIDER_MAX {
        Some((value - 1) as u8)
    } else {
        None
    }
}

/// Decodes a four-bit code into the divider it stands for, `code + 1`.
pub fn decode_divider(code: u8) -> (value: i8)
    requires
        is_divider_code(code as int),
    ensures
        value == code_divider(code as int),
        is_divider(value as int),
{
    (code + 1) as i8
}

/// Encoding and decoding are inverse to each other: every divider in `[1, 16]` has a
/// four-bit code that decodes to it, and every four-bit code stands for a divider in
/// `[1, 16]` that encodes to it.
pub proof fn lemma_divider_round_trip(value: int, code: int)
    ensures
        is_divider(value) ==> is_divider_code(divider_code(value)) && code_divider(
            divider_code(value),
        ) == value,
        is_divider_code(code) ==> is_divider(code_divider(code)) && divider_code(
            code_divider(code),
        ) == code,
{
}

/// The register contents that stand for three dividers decode to those three dividers, and
/// well-formed register contents are the encoding of what they decode to.
pub proof fn lemma_dividers_round_trip(core: int, bus: int, flash: int, register: ClockDividerRegister)
    ensures
        is_divider(core) && is_divider(bus) && is_divider(flash) ==> {
            &&& ClockDividerRegister::encoding(core, bus, flash).wf()
            &&& ClockDividerRegister::encoding(core, bus, flash).dividers() == (core, bus, flash)
        },
        register.wf() ==> ({
            let (c, b, f) = register.dividers();
            &&& is_divider(c) && is_divider(b) && is_divider(f)
            &&& ClockDividerRegister::encoding(c, b, f) == register
        }),
{
}

/// The driver of the system integration module, over the contents of its clock divider
/// register.
pub struct SystemIntegrationModule {
    /// The divider fields of the clock divider register 1.
    pub clkdiv1: ClockDividerRegister,
}

impl SystemIntegrationModule {
    pub fn new(clkdiv1: ClockDividerRegister) -> (sim: SystemIntegrationModule)
        ensures
            sim.clkdiv1 == clkdiv1,
    {
        SystemIntegrationModule { clkdiv1 }
    }

    /// Sets the core, bus and flash dividers.
    ///
    /// All three are checked before anything is written: if one is outside `[1, 16]`, the
    /// first such one (core, then bus, then flash) is reported and the register is left as
    /// it was. Otherwise the three fields are replaced together by the codes of the three
    /// dividers.
    pub fn set_dividers(&mut self, core: i8, bus: i8, flash: i8) -> (r: Result<(), DividerError>)
        ensures
            !is_divider(core as int) ==> r == Err::<(), DividerError>(DividerError::Core(core)),
            is_divider(core as int) && !is_divider(bus as int) ==> r == Err::<(), DividerError>(
                DividerError::Bus(bus),
            ),
            is_divider(core as int) && is_divider(bus as int) && !is_divider(flash as int) ==> r
                == Err::<(), DividerError>(DividerError::Flash(flash)),
            is_divider(core as int) && is_divider(bus as int) && is_divider(flash as int) ==> r
                == Ok::<(), DividerError>(()),
            r.is_err() ==> *final(self) == *old(self),
            r.is_ok() ==> final(self).clkdiv1 == ClockDividerRegister::encoding(
                core as int,
                bus as int,
                flash as int,
            ) && final(self).clkdiv1.wf() && final(self).clkdiv1.dividers() == (
                core as int,
                bus as int,
                flash as int,
            ),
    {
        let outdiv1 = match encode_divider(core) {
            Some(code) => code,
            None => return Err(DividerError::Core(core)),
        };
        let outdiv2 = match encode_divider(bus) {
            Some(code) => code,
            None => return Err(DividerError::Bus(bus)),
        };
        let outdiv4 = match encode_divider(flash) {
            Some(code) => code,
            None => return Err(DividerError::Flash(flash)),
        };
        self.clkdiv1 = ClockDividerRegister { outdiv1, outdiv2, outdiv4 };
        Ok(())
    }

    /// The core, bus and flash clock frequencies in MHz for a clock generator that puts
    /// out the maximum clock frequency: that frequency over each divider, rounded down.
    pub fn get_frequencies(&self) -> (frequencies: (i8, i8, i8))
        requires
            self.clkdiv1.wf(),
        ensures
            frequencies.0 == MAXIMUM_CLOCK_FREQUENCY as int / self.clkdiv1.dividers().0,
            frequencies.1 == MAXIMUM_CLOCK_FREQUENCY as int / self.clkdiv1.dividers().1,
            frequencies.2 == MAXIMUM_CLOCK_FREQUENCY as int / self.clkdiv1.dividers().2,
    {
        let (core, bus, flash) = self.get_dividers();
        (
            MAXIMUM_CLOCK_FREQUENCY / core,
            MAXIMUM_CLOCK_FREQUENCY / bus,
            MAXIMUM_CLOCK_FREQUENCY / flash,
        )
    }

    /// The core, bus and flash dividers that the register holds.
    pub fn get_dividers(&self) -> (dividers: (i8, i8, i8))
        requires
            self.clkdiv1.wf(),
        ensures
            (dividers.0 as int, dividers.1 as int, dividers.2 as int) == self.clkdiv1.dividers(),
    {
        (
            decode_divider(self.clkdiv1.outdiv1),
            decode_divider(self.clkdiv1.outdiv2),
            decode_divider(self.clkdiv1.outdiv4),
        )
    }
}

} // verus!
