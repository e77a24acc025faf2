//! The multipurpose clock generator: its registers, its modes of operation, and the driver
//! operations that move it from one mode to the next.
//!
//! The driver works on a sample of the generator's registers. An operation changes fields of
//! the sample and leaves every other field as it found it; the caller writes the changed
//! sample to the hardware. Where the hardware takes time to follow, the operation returns
//! the status condition to wait for instead of waiting itself.

use vstd::prelude::*;
use crate::error::ClockError;
use crate::pll::{
    is_pll_divider, lemma_solution_keeps_ratio, pll_frequency_divider_gcd, solved_pll_divider,
    PLL_DIVIDER_DENOMINATOR_MAX, PLL_DIVIDER_DENOMINATOR_MIN, PLL_DIVIDER_NUMERATOR_MAX,
    PLL_DIVIDER_NUMERATOR_MIN,
};
use crate::refdiv::{
    decode_reference_divider, encode_reference_divider, is_reference_divider,
    is_reference_divider_code, reference_divider, reference_divider_code,
};
use crate::units::{megahertz_to_kilohertz, KILOHERTZ_PER_MEGAHERTZ};

verus! {

/// The lower end of the FLL reference range, 31.25 kHz, in units of half a hertz.
pub const FLL_RANGE_MIN_HALF_HERTZ: u64 = 62_500;

/// The upper end of the FLL reference range, 39.0625 kHz, in units of half a hertz.
pub const FLL_RANGE_MAX_HALF_HERTZ: u64 = 78_125;

/// The number of half hertz in one kHz.
pub const HALF_HERTZ_PER_KILOHERTZ: u64 = 2_000;

/// `C1[CLKS]`: the clock source that is asked for.
#[derive(Clone, Copy, Debug, PartialEq, Eq, Structural)]
pub enum ClockSource {
    /// Encoding 0: the output of the FLL or of the PLL, whichever `PLLS` selects.
    LockedLoop,
    /// Encoding 1: the internal reference clock.
    InternalReference,
    /// Encoding 2: the external reference clock.
    ExternalReference,
    /// Encoding 3: reserved.
    Reserved,
}

/// `S[CLKST]`: the clock source that is in use.
#[derive(Clone, Copy, Debug, PartialEq, Eq, Structural)]
pub enum ClockStatus {
    /// Encoding 0: the output of the FLL.
    Fll,
    /// Encoding 1: the internal reference clock.
    InternalReference,
    /// Encoding 2: the external reference clock.
    ExternalReference,
    /// Encoding 3: the output of the PLL.
    Pll,
}

/// `C2[RANGE0]`: the frequency range of the crystal oscillator.
#[derive(Clone, Copy, Debug, PartialEq, Eq, Structural)]
pub enum CrystalRange {
    /// Encoding 0: low frequency range.
    Low,
    /// Encoding 1: high frequency range.
    High,
    /// Encodings 2 and 3: very high frequency range.
    VeryHigh,
}

/// The fields of the control registers `C1`, `C2`, `C5`, `C6` and `C7` that the driver
/// reads. The driver writes all of them but `oscsel`.
#[derive(Clone, Copy, Debug, PartialEq, Eq, Structural)]
pub struct McgControl {
    /// `C1[CLKS]`: clock source select.
    pub clks: ClockSource,
    /// `C1[FRDIV]`: the three-bit code of the FLL external reference divider.
    pub frdiv: u8,
    /// `C1[IREFS]`: the internal reference is selected for the FLL.
    pub irefs: bool,
    /// `C2[RANGE0]`: the frequency range of the crystal oscillator.
    pub range0: CrystalRange,
    /// `C2[EREFS0]`: the external crystal is requested.
    pub erefs0: bool,
    /// `C2[LP]`: low power is enabled.
    pub lp: bool,
    /// `C5[PRDIV0]`: the five-bit code of the PLL reference divide factor.
    pub prdiv0: u8,
    /// `C6[VDIV0]`: the five-bit code of the PLL VCO divide factor.
    pub vdiv0: u8,
    /// `C6[PLLS]`: the PLL is selected.
    pub plls: bool,
    /// `C7[OSCSEL]`: the real-time clock oscillator is selected.
    pub oscsel: bool,
}

/// The fields of the status register `S` that the driver waits on.
#[derive(Clone, Copy, Debug, PartialEq, Eq, Structural)]
pub struct McgStatus {
    /// `S[OSCINIT0]`: the crystal oscillator has been initialized.
    pub oscinit0: bool,
    /// `S[IREFST]`: the FLL runs from the internal reference.
    pub irefst: bool,
    /// `S[CLKST]`: the clock source in use.
    pub clkst: ClockStatus,
    /// `S[PLLST]`: the PLL is the source of the locked loop output.
    pub pllst: bool,
    /// `S[LOCK0]`: the PLL is locked.
    pub lock0: bool,
}

/// One sample of the registers of the clock generator.
#[derive(Clone, Copy, Debug, PartialEq, Eq, Structural)]
pub struct McgRegisters {
    pub control: McgControl,
    pub status: McgStatus,
}

impl McgControl {
    /// Each code fits its field: three bits for `frdiv`, five for `prdiv0` and `vdiv0`.
    pub open spec fn wf(self) -> bool {
        &&& is_reference_divider_code(self.frdiv as int)
        &&& self.prdiv0 < 32
        &&& self.vdiv0 < 32
    }

    /// The crystal is of the class whose reference dividers are 1 to 128: the low frequency
    /// range is selected, or the real-time clock oscillator is.
    pub open spec fn low_frequency(self) -> bool {
        self.range0 == CrystalRange::Low || self.oscsel
    }

    /// The status of a generator that has followed its control registers: the oscillator
    /// is initialized exactly if it is requested, the FLL reference and the clock source in
    /// use are the ones asked for, and the PLL is selected and locked exactly if `PLLS` is
    /// set.
    pub open spec fn settled_status(self) -> McgStatus {
        McgStatus {
            oscinit0: self.erefs0,
            irefst: self.irefs,
            clkst: match self.clks {
                ClockSource::InternalReference => ClockStatus::InternalReference,
                ClockSource::ExternalReference => ClockStatus::ExternalReference,
                _ => if self.plls {
                    ClockStatus::Pll
                } else {
                    ClockStatus::Fll
                },
            },
            pllst: self.plls,
            lock0: self.plls,
        }
    }

    /// Whether each code fits its field.
    pub fn is_valid(&self) -> (valid: bool)
        ensures
            valid == self.wf(),
    {
        self.frdiv < 8 && self.prdiv0 < 32 && self.vdiv0 < 32
    }
}

impl McgRegisters {
    /// Each code of the control registers fits its field.
    pub open spec fn wf(self) -> bool {
        self.control.wf()
    }
}

/// A condition on the status register that the hardware reaches some time after a write.
/// The driver's caller polls the status register until the condition is met.
#[derive(Clone, Copy, Debug, PartialEq, Eq, Structural)]
pub enum Wait {
    /// The crystal oscillator has been initialized: `OSCINIT0` is set.
    OscillatorInitialized,
    /// The crystal oscillator has stopped: `OSCINIT0` is clear.
    OscillatorStopped,
    /// The FLL runs from the external reference: `IREFST` is clear.
    ExternalReferenceSelected,
    /// The external reference clock is the clock source in use: `CLKST` reads 2.
    ExternalClockSelected,
    /// The PLL is the source of the locked loop output: `PLLST` is set.
    PllSelected,
    /// The PLL is locked: `LOCK0` is set.
    PllLocked,
    /// The output of the PLL is the clock source in use: `CLKST` reads 3.
    PllClockSelected,
}

impl Wait {
    /// The status at which the wait is over.
    pub open spec fn met(self, status: McgStatus) -> bool {
        match self {
            Wait::OscillatorInitialized => status.oscinit0,
            Wait::OscillatorStopped => !status.oscinit0,
            Wait::ExternalReferenceSelected => !status.irefst,
            Wait::ExternalClockSelected => status.clkst == ClockStatus::ExternalReference,
            Wait::PllSelected => status.pllst,
            Wait::PllLocked => status.lock0,
            Wait::PllClockSelected => status.clkst == ClockStatus::Pll,
        }
    }

    /// Whether the wait is over at the sampled status.
    pub fn is_met(&self, status: &McgStatus) -> (met: bool)
        ensures
            met == self.met(*status),
    {
        match self {
            Wait::OscillatorInitialized => status.oscinit0,
            Wait::OscillatorStopped => !status.oscinit0,
            Wait::ExternalReferenceSelected => !status.irefst,
            Wait::ExternalClockSelected => status.clkst == ClockStatus::ExternalReference,
            Wait::PllSelected => status.pllst,
            Wait::PllLocked => status.lock0,
            Wait::PllClockSelected => status.clkst == ClockStatus::Pll,
        }
    }
}

/// The modes of operation of the clock generator.
#[derive(Clone, Copy, Debug, PartialEq, Eq, Structural)]
pub enum Mode {
    /// FLL engaged, internal reference.
    Fei,
    /// FLL engaged, external reference.
    Fee,
    /// FLL bypassed, internal reference.
    Fbi,
    /// FLL bypassed, external reference.
    Fbe,
    /// PLL engaged, external reference.
    Pee,
    /// PLL bypassed, external reference.
    Pbe,
    /// Bypassed low power, internal reference.
    Blpi,
    /// Bypassed low power, external reference.
    Blpe,
    /// Stop.
    Stop,
}

/// The FLL reference frequency, the crystal frequency over the reference divider, lies in
/// the range the FLL accepts: `31.25 kHz <= crystal / divider <= 39.0625 kHz`, in exact
/// arithmetic.
pub open spec fn fll_range_ok(crystal_megahertz: int, divider: int) -> bool {
    let half_hertz = crystal_megahertz * KILOHERTZ_PER_MEGAHERTZ * HALF_HERTZ_PER_KILOHERTZ;
    FLL_RANGE_MIN_HALF_HERTZ * divider <= half_hertz <= FLL_RANGE_MAX_HALF_HERTZ * divider
}

/// The mode that the sampled fields show, by the table of the reference manual; nothing
/// where the fields match no mode.
pub open spec fn decoded_mode(
    clks: ClockSource,
    irefs: bool,
    plls: bool,
    lp: bool,
    fll_range_ok: bool,
) -> Option<Mode> {
    match (clks, irefs, plls, lp, fll_range_ok) {
        (ClockSource::LockedLoop, true, false, _, _) => Some(Mode::Fei),
        (ClockSource::LockedLoop, false, false, _, true) => Some(Mode::Fee),
        (ClockSource::InternalReference, true, false, false, _) => Some(Mode::Fbi),
        (ClockSource::ExternalReference, false, false, false, true) => Some(Mode::Fbe),
        (ClockSource::LockedLoop, false, true, _, _) => Some(Mode::Pee),
        (ClockSource::ExternalReference, false, true, false, _) => Some(Mode::Pbe),
        (ClockSource::InternalReference, true, false, true, _) => Some(Mode::Blpi),
        (ClockSource::ExternalReference, false, _, true, _) => Some(Mode::Blpe),
        _ => None,
    }
}

/// No combination of the sampled fields shows the stop mode.
pub proof fn lemma_stop_is_never_decoded(
    clks: ClockSource,
    irefs: bool,
    plls: bool,
    lp: bool,
    fll_range_ok: bool,
)
    ensures
        decoded_mode(clks, irefs, plls, lp, fll_range_ok) != Some(Mode::Stop),
{
}

/// The driver of the clock generator: a sample of its registers and the frequency of the
/// external crystal on the board.
#[derive(Debug, PartialEq, Eq, Structural)]
pub struct MultipurposeClockGenerator {
    /// The registers as last sampled, with the changes the driver has made since.
    pub registers: McgRegisters,
    /// The frequency of the external crystal, in MHz.
    pub external_crystal_frequency: u32,
}

impl MultipurposeClockGenerator {
    /// Each code of the control registers fits its field.
    pub open spec fn wf(self) -> bool {
        self.registers.wf()
    }

    /// The FLL external reference divider that the registers hold.
    pub open spec fn reference_divider(self) -> int {
        reference_divider(
            self.registers.control.frdiv as int,
            self.registers.control.low_frequency(),
        )
    }

    /// The PLL divide factors that the registers hold, numerator first.
    pub open spec fn pll_divider(self) -> (int, int) {
        (
            self.registers.control.vdiv0 + PLL_DIVIDER_NUMERATOR_MIN,
            self.registers.control.prdiv0 + PLL_DIVIDER_DENOMINATOR_MIN,
        )
    }

    /// The output frequency of the PLL in MHz: the crystal frequency times the numerator,
    /// over the denominator, rounded down.
    pub open spec fn pll_frequency(self) -> int {
        (self.pll_divider().0 * self.external_crystal_frequency) / self.pll_divider().1
    }

    /// The mode of operation that the registers show; nothing where they match no mode.
    pub open spec fn mode(self) -> Option<Mode> {
        decoded_mode(
            self.registers.control.clks,
            self.registers.control.irefs,
            self.registers.control.plls,
            self.registers.control.lp,
            fll_range_ok(self.external_crystal_frequency as int, self.reference_divider()),
        )
    }

    pub fn new(registers: McgRegisters, external_crystal_frequency: u32) -> (mcg:
        MultipurposeClockGenerator)
        ensures
            mcg.registers == registers,
            mcg.external_crystal_frequency == external_crystal_frequency,
    {
        MultipurposeClockGenerator { registers, external_crystal_frequency }
    }

    /// Whether the external crystal is requested.
    pub fn external_crystal_is_requested(&self) -> (requested: bool)
        ensures
            requested == self.registers.control.erefs0,
    {
        self.registers.control.erefs0
    }

    /// Requests the external crystal. If it is requested already, nothing changes and there
    /// is nothing to wait for; otherwise `EREFS0` is set and the oscillator has to
    /// initialize.
    pub fn enable_external_crystal_request(&mut self) -> (wait: Option<Wait>)
        ensures
            old(self).registers.control.erefs0 ==> wait.is_none() && *final(self) == *old(self),
            !old(self).registers.control.erefs0 ==> wait == Some(Wait::OscillatorInitialized)
                && *final(self) == (MultipurposeClockGenerator {
                registers: McgRegisters {
                    control: McgControl { erefs0: true, ..old(self).registers.control },
                    ..old(self).registers
                },
                ..*old(self)
            }),
    {
        if self.external_crystal_is_requested() {
            return None;
        }
        self.registers.control.erefs0 = true;
        Some(Wait::OscillatorInitialized)
    }

    /// Withdraws the request for the external crystal. If it is not requested, nothing
    /// changes and there is nothing to wait for; otherwise `EREFS0` is cleared and the
    /// oscillator has to stop.
    pub fn disable_external_crystal_request(&mut self) -> (wait: Option<Wait>)
        ensures
            !old(self).registers.control.erefs0 ==> wait.is_none() && *final(self) == *old(self),
            old(self).registers.control.erefs0 ==> wait == Some(Wait::OscillatorStopped)
                && *final(self) == (MultipurposeClockGenerator {
                registers: McgRegisters {
                    control: McgControl { erefs0: false, ..old(self).registers.control },
                    ..old(self).registers
                },
                ..*old(self)
            }),
    {
        if !self.external_crystal_is_requested() {
            return None;
        }
        self.registers.control.erefs0 = false;
        Some(Wait::OscillatorStopped)
    }

    /// Selects the low frequency range of the crystal oscillator.
    pub fn set_external_crystal_frequency_range_low(&mut self)
        ensures
            *final(self) == (MultipurposeClockGenerator {
                registers: McgRegisters {
                    control: McgControl { range0: CrystalRange::Low, ..old(self).registers.control },
                    ..old(self).registers
                },
                ..*old(self)
            }),
    {
        self.registers.control.range0 = CrystalRange::Low;
    }

    /// Selects the high frequency range of the crystal oscillator.
    pub fn set_external_crystal_frequency_range_high(&mut self)
        ensures
            *final(self) == (MultipurposeClockGenerator {
                registers: McgRegisters {
                    control: McgControl { range0: CrystalRange::High, ..old(self).registers.control },
                    ..old(self).registers
                },
                ..*old(self)
            }),
    {
        self.registers.control.range0 = CrystalRange::High;
    }

    /// Whether the crystal is of the class whose reference dividers are 1 to 128.
    fn low_frequency(&self) -> (low: bool)
        ensures
            low == self.registers.control.low_frequency(),
    {
        let crystal_low_frequency = self.registers.control.range0 == CrystalRange::Low;
        let real_time_clock = self.registers.control.oscsel;
        crystal_low_frequency || real_time_clock
    }

    /// Sets the FLL external reference divider.
    ///
    /// The divider is encoded for the crystal class that the registers show. A value that
    /// is not one of the eight dividers of that class is refused and nothing changes;
    /// otherwise `FRDIV` becomes the code of the divider.
    pub fn set_external_crystal_frequency_divider(&mut self, divider: u16) -> (r: Result<
        (),
        ClockError,
    >)
        ensures
            !is_reference_divider(divider as int, old(self).registers.control.low_frequency())
                ==> r == Err::<(), ClockError>(ClockError::InvalidExternalClockDivider(divider))
                && *final(self) == *old(self),
            is_reference_divider(divider as int, old(self).registers.control.low_frequency())
                ==> {
                &&& r == Ok::<(), ClockError>(())
                &&& is_reference_divider_code(final(self).registers.control.frdiv as int)
                &&& final(self).reference_divider() == divider
                &&& *final(self) == (MultipurposeClockGenerator {
                    registers: McgRegisters {
                        control: McgControl {
                            frdiv: reference_divider_code(
                                divider as int,
                                old(self).registers.control.low_frequency(),
                            ) as u8,
                            ..old(self).registers.control
                        },
                        ..old(self).registers
                    },
                    ..*old(self)
                })
            },
    {
        match encode_reference_divider(divider, self.low_frequency()) {
            Some(code) => {
                self.registers.control.frdiv = code;
                Ok(())
            },
            None => Err(ClockError::InvalidExternalClockDivider(divider)),
        }
    }

    /// The FLL external reference divider that the registers hold, decoded for the crystal
    /// class that the registers show.
    pub fn get_external_crystal_frequency_divider(&self) -> (divider: u16)
        requires
            self.wf(),
        ensures
            divider == self.reference_divider(),
    {
        decode_reference_divider(self.registers.control.frdiv, self.low_frequency())
    }

    /// Selects the external reference clock as the clock source and as the reference of the
    /// FLL: `CLKS` becomes 2 and `IREFS` is cleared. The hardware then has to move the FLL
    /// to the external reference, and after that the clock source.
    pub fn use_external_crystal(&mut self) -> (waits: (Wait, Wait))
        ensures
            waits == (Wait::ExternalReferenceSelected, Wait::ExternalClockSelected),
            *final(self) == (MultipurposeClockGenerator {
                registers: McgRegisters {
                    control: McgControl {
                        clks: ClockSource::ExternalReference,
                        irefs: false,
                        ..old(self).registers.control
                    },
                    ..old(self).registers
                },
                ..*old(self)
            }),
    {
        self.registers.control.clks = ClockSource::ExternalReference;
        self.registers.control.irefs = false;
        (Wait::ExternalReferenceSelected, Wait::ExternalClockSelected)
    }

    /// Sets the PLL divide factors.
    ///
    /// A numerator outside `[24, 55]` is refused; then a denominator outside `[1, 25]` is.
    /// Nothing changes when the pair is refused. Otherwise `VDIV0` becomes the numerator
    /// less 24 and `PRDIV0` the denominator less 1.
    pub fn set_pll_frequency_divider(&mut self, numerator: u8, denominator: u8) -> (r: Result<
        (),
        ClockError,
    >)
        ensures
            !(PLL_DIVIDER_NUMERATOR_MIN <= numerator <= PLL_DIVIDER_NUMERATOR_MAX) ==> r == Err::<
                (),
                ClockError,
            >(ClockError::InvalidPllNumerator(numerator)),
            PLL_DIVIDER_NUMERATOR_MIN <= numerator <= PLL_DIVIDER_NUMERATOR_MAX && !(
            PLL_DIVIDER_DENOMINATOR_MIN <= denominator <= PLL_DIVIDER_DENOMINATOR_MAX) ==> r
                == Err::<(), ClockError>(ClockError::InvalidPllDenominator(denominator)),
            r.is_err() ==> *final(self) == *old(self),
            is_pll_divider(numerator as int, denominator as int) ==> {
                &&& r == Ok::<(), ClockError>(())
                &&& final(self).pll_divider() == (numerator as int, denominator as int)
                &&& *final(self) == (MultipurposeClockGenerator {
                    registers: McgRegisters {
                        control: McgControl {
                            prdiv0: (denominator - PLL_DIVIDER_DENOMINATOR_MIN) as u8,
                            vdiv0: (numerator - PLL_DIVIDER_NUMERATOR_MIN) as u8,
                            ..old(self).registers.control
                        },
                        ..old(self).registers
                    },
                    ..*old(self)
                })
            },
    {
        if numerator < PLL_DIVIDER_NUMERATOR_MIN || numerator > PLL_DIVIDER_NUMERATOR_MAX {
            return Err(ClockError::InvalidPllNumerator(numerator));
        }
        if denominator < PLL_DIVIDER_DENOMINATOR_MIN || denominator > PLL_DIVIDER_DENOMINATOR_MAX {
            return Err(ClockError::InvalidPllDenominator(denominator));
        }
        self.registers.control.prdiv0 = denominator - PLL_DIVIDER_DENOMINATOR_MIN;
        self.registers.control.vdiv0 = numerator - PLL_DIVIDER_NUMERATOR_MIN;
        Ok(())
    }

    /// The PLL divide factors that the registers hold, numerator first.
    pub fn get_pll_frequency_divider(&self) -> (divider: (u8, u8))
        requires
            self.wf(),
        ensures
            (divider.0 as int, divider.1 as int) == self.pll_divider(),
    {
        let numerator = self.registers.control.vdiv0 + PLL_DIVIDER_NUMERATOR_MIN;
        let denominator = self.registers.control.prdiv0 + PLL_DIVIDER_DENOMINATOR_MIN;
        (numerator, denominator)
    }

    /// Sets the PLL divide factors so that the PLL puts out `frequency` MHz.
    ///
    /// The request is refused, and nothing changes, when `frequency` or the crystal
    /// frequency is above 255 MHz (the first of the two that is, is reported), or when the
    /// solver finds no legal pair for the ratio of the two. Otherwise the registers take
    /// the solver's pair, and the PLL frequency they stand for is exactly `frequency`.
    pub fn set_pll_frequency(&mut self, frequency: u32) -> (r: Result<(), ClockError>)
        ensures
            frequency > u8::MAX ==> r == Err::<(), ClockError>(
                ClockError::FrequencyOutOfRange(frequency),
            ),
            frequency <= u8::MAX && old(self).external_crystal_frequency > u8::MAX ==> r == Err::<
                (),
                ClockError,
            >(ClockError::FrequencyOutOfRange(old(self).external_crystal_frequency)),
            frequency <= u8::MAX && old(self).external_crystal_frequency <= u8::MAX ==> (
            match solved_pll_divider(
                frequency as nat,
                old(self).external_crystal_frequency as nat,
            ) {
                Some((n, d)) => {
                    &&& r == Ok::<(), ClockError>(())
                    &&& final(self).pll_divider() == (n, d)
                    &&& final(self).pll_frequency() == frequency
                    &&& *final(self) == (MultipurposeClockGenerator {
                        registers: McgRegisters {
                            control: McgControl {
                                prdiv0: (d - PLL_DIVIDER_DENOMINATOR_MIN) as u8,
                                vdiv0: (n - PLL_DIVIDER_NUMERATOR_MIN) as u8,
                                ..old(self).registers.control
                            },
                            ..old(self).registers
                        },
                        ..*old(self)
                    })
                },
                None => r == Err::<(), ClockError>(
                    ClockError::UnsolvablePllDivider {
                        numerator: frequency as u8,
                        denominator: old(self).external_crystal_frequency as u8,
                    },
                ),
            }),
            r.is_err() ==> *final(self) == *old(self),
    {
        if frequency > 255 {
            return Err(ClockError::FrequencyOutOfRange(frequency));
        }
        if self.external_crystal_frequency > 255 {
            return Err(ClockError::FrequencyOutOfRange(self.external_crystal_frequency));
        }
        let desired = frequency as u8;
        let crystal = self.external_crystal_frequency as u8;
        let divider = pll_frequency_divider_gcd(desired, crystal)?;
        proof {
            lemma_solution_keeps_ratio(desired, crystal);
        }
        self.set_pll_frequency_divider(divider.0, divider.1)
    }

    /// The output frequency of the PLL in MHz that the registers stand for.
    pub fn get_pll_frequency(&self) -> (frequency: u32)
        requires
            self.wf(),
            self.pll_divider().0 * self.external_crystal_frequency <= u32::MAX,
        ensures
            frequency == self.pll_frequency(),
    {
        let (numerator, denominator) = self.get_pll_frequency_divider();
        let num = numerator as u32;
        let den = denominator as u32;
        (num * self.external_crystal_frequency) / den
    }

    /// Selects the PLL: `PLLS` is set. The hardware then has to switch the locked loop
    /// output to the PLL, and the PLL has to lock.
    pub fn enable_pll(&mut self) -> (waits: (Wait, Wait))
        ensures
            waits == (Wait::PllSelected, Wait::PllLocked),
            *final(self) == (MultipurposeClockGenerator {
                registers: McgRegisters {
                    control: McgControl { plls: true, ..old(self).registers.control },
                    ..old(self).registers
                },
                ..*old(self)
            }),
    {
        self.registers.control.plls = true;
        (Wait::PllSelected, Wait::PllLocked)
    }

    /// Selects the output of the locked loop, which `PLLS` has made the PLL, as the clock
    /// source: `CLKS` becomes 0. The hardware then has to switch the clock source to the
    /// PLL.
    pub fn use_pll(&mut self) -> (wait: Wait)
        ensures
            wait == Wait::PllClockSelected,
            *final(self) == (MultipurposeClockGenerator {
                registers: McgRegisters {
                    control: McgControl {
                        clks: ClockSource::LockedLoop,
                        ..old(self).registers.control
                    },
                    ..old(self).registers
                },
                ..*old(self)
            }),
    {
        self.registers.control.clks = ClockSource::LockedLoop;
        Wait::PllClockSelected
    }

    /// Whether the FLL reference frequency, the crystal frequency over the reference divider
    /// that the registers hold, lies in the range the FLL accepts.
    pub fn fll_range_ok(&self) -> (ok: bool)
        requires
            self.wf(),
        ensures
            ok == fll_range_ok(self.external_crystal_frequency as int, self.reference_divider()),
    {
        let divider = self.get_external_crystal_frequency_divider() as u64;
        if self.external_crystal_frequency > u32::MAX / KILOHERTZ_PER_MEGAHERTZ {
            // Far above the range, whatever the divider: no divider exceeds 1536.
            return false;
        }
        let kilohertz = megahertz_to_kilohertz(self.external_crystal_frequency) as u64;
        let half_hertz = kilohertz * HALF_HERTZ_PER_KILOHERTZ;
        FLL_RANGE_MIN_HALF_HERTZ * divider <= half_hertz && half_hertz <= FLL_RANGE_MAX_HALF_HERTZ
            * divider
    }
}

} // verus!
