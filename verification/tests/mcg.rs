use mk20d7_hal::error::ClockError;
use mk20d7_hal::mcg::{
    ClockSource, ClockStatus, CrystalRange, McgControl, McgRegisters, McgStatus, Mode,
    MultipurposeClockGenerator, Wait,
};
use mk20d7_hal::mode::ClockMode;

fn reset_control() -> McgControl {
    McgControl {
        clks: ClockSource::LockedLoop,
        frdiv: 0,
        irefs: true,
        range0: CrystalRange::Low,
        erefs0: false,
        lp: false,
        prdiv0: 0,
        vdiv0: 0,
        plls: false,
        oscsel: false,
    }
}

fn reset_status() -> McgStatus {
    McgStatus {
        oscinit0: false,
        irefst: true,
        clkst: ClockStatus::Fll,
        pllst: false,
        lock0: false,
    }
}

fn generator(control: McgControl, crystal: u32) -> MultipurposeClockGenerator {
    MultipurposeClockGenerator::new(McgRegisters { control, status: reset_status() }, crystal)
}

fn mode_of(control: McgControl, crystal: u32) -> Result<Mode, ClockError> {
    generator(control, crystal).clock_mode().map(|token| token.to_mode())
}

/// External reference, high range, divider 512: the FLL reference of a 16 MHz crystal is
/// 31.25 kHz.
fn external(clks: ClockSource) -> McgControl {
    McgControl {
        clks,
        irefs: false,
        range0: CrystalRange::High,
        erefs0: true,
        frdiv: 4,
        ..reset_control()
    }
}

#[test]
fn reset_state_is_fei() {
    assert_eq!(mode_of(reset_control(), 16), Ok(Mode::Fei));
    let token = generator(reset_control(), 16).clock_mode().unwrap();
    assert!(matches!(token, ClockMode::Fei(_)));
}

#[test]
fn fei_does_not_depend_on_low_power_or_the_fll_range() {
    for lp in [false, true] {
        for crystal in [0, 16, 1000, u32::MAX] {
            let control = McgControl { lp, ..reset_control() };
            assert_eq!(mode_of(control, crystal), Ok(Mode::Fei));
        }
    }
}

#[test]
fn mode_table_rows() {
    let ext = external(ClockSource::ExternalReference);
    assert_eq!(mode_of(ext, 16), Ok(Mode::Fbe));
    assert_eq!(mode_of(external(ClockSource::LockedLoop), 16), Ok(Mode::Fee));
    assert_eq!(mode_of(McgControl { lp: true, ..external(ClockSource::LockedLoop) }, 16), Ok(Mode::Fee));
    assert_eq!(mode_of(McgControl { plls: true, ..ext }, 16), Ok(Mode::Pbe));
    assert_eq!(mode_of(McgControl { plls: true, ..ext }, 1), Ok(Mode::Pbe));
    assert_eq!(
        mode_of(McgControl { plls: true, ..external(ClockSource::LockedLoop) }, 16),
        Ok(Mode::Pee)
    );
    assert_eq!(
        mode_of(McgControl { plls: true, lp: true, ..external(ClockSource::LockedLoop) }, 3),
        Ok(Mode::Pee)
    );
    assert_eq!(mode_of(McgControl { lp: true, ..ext }, 16), Ok(Mode::Blpe));
    assert_eq!(mode_of(McgControl { lp: true, plls: true, ..ext }, 1), Ok(Mode::Blpe));
    let internal = McgControl { clks: ClockSource::InternalReference, ..reset_control() };
    assert_eq!(mode_of(internal, 16), Ok(Mode::Fbi));
    assert_eq!(mode_of(McgControl { lp: true, ..internal }, 16), Ok(Mode::Blpi));
}

#[test]
fn combinations_that_match_no_mode_are_refused() {
    let ext = external(ClockSource::ExternalReference);
    // FBE and FEE need the FLL reference in range
    assert_eq!(mode_of(ext, 15), Err(ClockError::UnknownClockMode));
    assert_eq!(mode_of(external(ClockSource::LockedLoop), 21), Err(ClockError::UnknownClockMode));
    // external clock with the internal reference selected
    assert_eq!(mode_of(McgControl { irefs: true, ..ext }, 16), Err(ClockError::UnknownClockMode));
    // internal clock without the internal reference, or with the PLL
    let internal = McgControl { clks: ClockSource::InternalReference, ..reset_control() };
    assert_eq!(mode_of(McgControl { irefs: false, ..internal }, 16), Err(ClockError::UnknownClockMode));
    assert_eq!(mode_of(McgControl { plls: true, ..internal }, 16), Err(ClockError::UnknownClockMode));
    // locked loop with the PLL and the internal reference
    assert_eq!(
        mode_of(McgControl { plls: true, ..reset_control() }, 16),
        Err(ClockError::UnknownClockMode)
    );
    // the reserved clock source
    for irefs in [false, true] {
        for plls in [false, true] {
            for lp in [false, true] {
                let control =
                    McgControl { clks: ClockSource::Reserved, irefs, plls, lp, ..external(ClockSource::Reserved) };
                assert_eq!(mode_of(control, 16), Err(ClockError::UnknownClockMode));
            }
        }
    }
}

#[test]
fn stop_is_never_read_off_the_registers() {
    for clks in [
        ClockSource::LockedLoop,
        ClockSource::InternalReference,
        ClockSource::ExternalReference,
        ClockSource::Reserved,
    ] {
        for irefs in [false, true] {
            for plls in [false, true] {
                for lp in [false, true] {
                    for crystal in [16, 1] {
                        let control = McgControl { clks, irefs, plls, lp, ..external(clks) };
                        assert_ne!(mode_of(control, crystal), Ok(Mode::Stop));
                    }
                }
            }
        }
    }
}

#[test]
fn fll_range_is_31_25_to_39_0625_khz_inclusive() {
    // divider 512: 16 MHz gives 31.25 kHz, 20 MHz gives 39.0625 kHz
    let at = |crystal: u32, frdiv: u8, range0: CrystalRange| {
        generator(McgControl { frdiv, range0, ..reset_control() }, crystal).fll_range_ok()
    };
    assert!(!at(15, 4, CrystalRange::High));
    assert!(at(16, 4, CrystalRange::High));
    assert!(at(17, 4, CrystalRange::High));
    assert!(at(20, 4, CrystalRange::High));
    assert!(!at(21, 4, CrystalRange::High));
    // divider 1024: 32 MHz to 40 MHz
    assert!(!at(31, 5, CrystalRange::High));
    assert!(at(32, 5, CrystalRange::High));
    assert!(at(40, 5, CrystalRange::High));
    assert!(!at(41, 5, CrystalRange::High));
    // divider 1280: 40 MHz to 50 MHz
    assert!(!at(39, 6, CrystalRange::High));
    assert!(at(40, 6, CrystalRange::High));
    assert!(at(50, 6, CrystalRange::High));
    assert!(!at(51, 6, CrystalRange::High));
    // divider 1536: 48 MHz to 60 MHz
    assert!(!at(47, 7, CrystalRange::High));
    assert!(at(48, 7, CrystalRange::High));
    assert!(at(60, 7, CrystalRange::High));
    assert!(!at(61, 7, CrystalRange::High));
    // divider 32 in the high range: 1 MHz gives 31.25 kHz
    assert!(at(1, 0, CrystalRange::High));
    assert!(!at(2, 0, CrystalRange::High));
    // the same code in the low range stands for 1: no whole number of MHz fits
    assert!(!at(1, 0, CrystalRange::Low));
    assert!(!at(16, 4, CrystalRange::Low));
    assert!(!at(0, 4, CrystalRange::High));
    // frequencies that cannot be counted in kHz are out of range
    assert!(!at(4_294_967, 7, CrystalRange::High));
    assert!(!at(4_294_968, 7, CrystalRange::High));
    assert!(!at(u32::MAX, 7, CrystalRange::High));
}

#[test]
fn reading_the_mode_twice_gives_the_same_mode() {
    let controls = [
        reset_control(),
        external(ClockSource::ExternalReference),
        external(ClockSource::LockedLoop),
        McgControl { plls: true, ..external(ClockSource::ExternalReference) },
        McgControl { plls: true, ..external(ClockSource::LockedLoop) },
        McgControl { lp: true, ..external(ClockSource::ExternalReference) },
        McgControl { clks: ClockSource::InternalReference, ..reset_control() },
        McgControl { clks: ClockSource::InternalReference, lp: true, ..reset_control() },
    ];
    for control in controls {
        let first = generator(control, 16).clock_mode().unwrap();
        let mode = first.to_mode();
        let released = first.free();
        assert_eq!(released, generator(control, 16));
        let second = released.clock_mode().unwrap();
        assert_eq!(second.to_mode(), mode);
        assert_eq!(second.free(), generator(control, 16));
    }
}

#[test]
fn external_crystal_request() {
    let mut mcg = generator(reset_control(), 16);
    assert!(!mcg.external_crystal_is_requested());
    assert_eq!(mcg.disable_external_crystal_request(), None);
    assert_eq!(mcg, generator(reset_control(), 16));
    assert_eq!(mcg.enable_external_crystal_request(), Some(Wait::OscillatorInitialized));
    assert!(mcg.external_crystal_is_requested());
    assert_eq!(mcg, generator(McgControl { erefs0: true, ..reset_control() }, 16));
    assert_eq!(mcg.enable_external_crystal_request(), None);
    assert_eq!(mcg, generator(McgControl { erefs0: true, ..reset_control() }, 16));
    assert_eq!(mcg.disable_external_crystal_request(), Some(Wait::OscillatorStopped));
    assert_eq!(mcg, generator(reset_control(), 16));
}

#[test]
fn crystal_range_selection_changes_only_the_range() {
    let mut mcg = generator(reset_control(), 16);
    mcg.set_external_crystal_frequency_range_high();
    assert_eq!(mcg, generator(McgControl { range0: CrystalRange::High, ..reset_control() }, 16));
    mcg.set_external_crystal_frequency_range_low();
    assert_eq!(mcg, generator(reset_control(), 16));
}

#[test]
fn reference_divider_is_encoded_for_the_class_the_registers_show() {
    let mut mcg = generator(reset_control(), 16);
    // low range: 512 is not a divider
    assert_eq!(
        mcg.set_external_crystal_frequency_divider(512),
        Err(ClockError::InvalidExternalClockDivider(512))
    );
    assert_eq!(mcg, generator(reset_control(), 16));
    assert_eq!(mcg.set_external_crystal_frequency_divider(32), Ok(()));
    assert_eq!(mcg.registers.control.frdiv, 5);
    assert_eq!(mcg.get_external_crystal_frequency_divider(), 32);
    mcg.set_external_crystal_frequency_range_high();
    // the code stays and now stands for 1024
    assert_eq!(mcg.get_external_crystal_frequency_divider(), 1024);
    assert_eq!(mcg.set_external_crystal_frequency_divider(512), Ok(()));
    assert_eq!(mcg.registers.control.frdiv, 4);
    assert_eq!(mcg.get_external_crystal_frequency_divider(), 512);
    assert_eq!(mcg.set_external_crystal_frequency_divider(32), Ok(()));
    assert_eq!(mcg.registers.control.frdiv, 0);
    assert_eq!(
        mcg.set_external_crystal_frequency_divider(1),
        Err(ClockError::InvalidExternalClockDivider(1))
    );
    assert_eq!(mcg.registers.control.frdiv, 0);
    // with the real-time clock oscillator selected the low table holds even in the high range
    let mut rtc = generator(
        McgControl { range0: CrystalRange::VeryHigh, oscsel: true, ..reset_control() },
        16,
    );
    assert_eq!(rtc.set_external_crystal_frequency_divider(128), Ok(()));
    assert_eq!(rtc.registers.control.frdiv, 7);
    assert_eq!(rtc.get_external_crystal_frequency_divider(), 128);
    assert_eq!(
        rtc.set_external_crystal_frequency_divider(1536),
        Err(ClockError::InvalidExternalClockDivider(1536))
    );
}

#[test]
fn use_external_crystal_selects_the_external_reference() {
    let mut mcg = generator(reset_control(), 16);
    assert_eq!(
        mcg.use_external_crystal(),
        (Wait::ExternalReferenceSelected, Wait::ExternalClockSelected)
    );
    assert_eq!(
        mcg,
        generator(
            McgControl { clks: ClockSource::ExternalReference, irefs: false, ..reset_control() },
            16
        )
    );
}

#[test]
fn pll_divider_codes_are_offsets_from_the_minimum() {
    let mut mcg = generator(reset_control(), 16);
    assert_eq!(mcg.get_pll_frequency_divider(), (24, 1));
    assert_eq!(mcg.set_pll_frequency_divider(27, 6), Ok(()));
    assert_eq!(mcg.registers.control.vdiv0, 3);
    assert_eq!(mcg.registers.control.prdiv0, 5);
    assert_eq!(mcg.get_pll_frequency_divider(), (27, 6));
    assert_eq!(mcg.set_pll_frequency_divider(55, 25), Ok(()));
    assert_eq!(mcg.registers.control.vdiv0, 31);
    assert_eq!(mcg.registers.control.prdiv0, 24);
    assert_eq!(mcg.set_pll_frequency_divider(24, 1), Ok(()));
    assert_eq!(mcg.registers.control.vdiv0, 0);
    assert_eq!(mcg.registers.control.prdiv0, 0);
}

#[test]
fn illegal_pll_dividers_are_refused() {
    let mut mcg = generator(reset_control(), 16);
    assert_eq!(mcg.set_pll_frequency_divider(27, 6), Ok(()));
    let before = generator(McgControl { vdiv0: 3, prdiv0: 5, ..reset_control() }, 16);
    assert_eq!(mcg.set_pll_frequency_divider(23, 1), Err(ClockError::InvalidPllNumerator(23)));
    assert_eq!(mcg.set_pll_frequency_divider(56, 1), Err(ClockError::InvalidPllNumerator(56)));
    assert_eq!(mcg.set_pll_frequency_divider(0, 0), Err(ClockError::InvalidPllNumerator(0)));
    assert_eq!(mcg.set_pll_frequency_divider(24, 0), Err(ClockError::InvalidPllDenominator(0)));
    assert_eq!(mcg.set_pll_frequency_divider(24, 26), Err(ClockError::InvalidPllDenominator(26)));
    assert_eq!(mcg, before);
}

#[test]
fn set_pll_frequency_solves_and_programs_the_divider() {
    let mut mcg = generator(reset_control(), 16);
    assert_eq!(mcg.set_pll_frequency(72), Ok(()));
    assert_eq!(mcg.get_pll_frequency_divider(), (27, 6));
    assert_eq!(mcg.get_pll_frequency(), 72);
    assert_eq!(mcg.set_pll_frequency(96), Ok(()));
    assert_eq!(mcg.get_pll_frequency_divider(), (24, 4));
    assert_eq!(mcg.get_pll_frequency(), 96);
}

#[test]
fn set_pll_frequency_gives_back_the_frequency_whenever_it_succeeds() {
    for crystal in 1u32..=64 {
        for frequency in 0u32..=255 {
            let mut mcg = generator(reset_control(), crystal);
            if mcg.set_pll_frequency(frequency).is_ok() {
                assert_eq!(mcg.get_pll_frequency(), frequency);
            } else {
                assert_eq!(mcg, generator(reset_control(), crystal));
            }
        }
    }
}

#[test]
fn set_pll_frequency_refusals() {
    let mut mcg = generator(reset_control(), 16);
    assert_eq!(mcg.set_pll_frequency(256), Err(ClockError::FrequencyOutOfRange(256)));
    assert_eq!(mcg.set_pll_frequency(0), Err(ClockError::UnsolvablePllDivider { numerator: 0, denominator: 16 }));
    assert_eq!(mcg.set_pll_frequency(1), Err(ClockError::UnsolvablePllDivider { numerator: 1, denominator: 16 }));
    let mut fast = generator(reset_control(), 300);
    assert_eq!(fast.set_pll_frequency(72), Err(ClockError::FrequencyOutOfRange(300)));
    assert_eq!(fast.set_pll_frequency(1000), Err(ClockError::FrequencyOutOfRange(1000)));
    let mut none = generator(reset_control(), 0);
    assert_eq!(none.set_pll_frequency(72), Err(ClockError::UnsolvablePllDivider { numerator: 72, denominator: 0 }));
    assert_eq!(mcg, generator(reset_control(), 16));
}

#[test]
fn pll_frequency_rounds_down() {
    let mcg = generator(McgControl { vdiv0: 1, prdiv0: 2, ..reset_control() }, 16);
    // 25 * 16 / 3
    assert_eq!(mcg.get_pll_frequency(), 133);
}

#[test]
fn enable_pll_and_use_pll() {
    let mut mcg = generator(external(ClockSource::ExternalReference), 16);
    assert_eq!(mcg.enable_pll(), (Wait::PllSelected, Wait::PllLocked));
    assert_eq!(
        mcg,
        generator(McgControl { plls: true, ..external(ClockSource::ExternalReference) }, 16)
    );
    assert_eq!(mcg.use_pll(), Wait::PllClockSelected);
    assert_eq!(mcg, generator(McgControl { plls: true, ..external(ClockSource::LockedLoop) }, 16));
}

#[test]
fn waits_are_met_by_their_status_flag() {
    let base = reset_status();
    assert!(!Wait::OscillatorInitialized.is_met(&base));
    assert!(Wait::OscillatorInitialized.is_met(&McgStatus { oscinit0: true, ..base }));
    assert!(Wait::OscillatorStopped.is_met(&base));
    assert!(!Wait::OscillatorStopped.is_met(&McgStatus { oscinit0: true, ..base }));
    assert!(!Wait::ExternalReferenceSelected.is_met(&base));
    assert!(Wait::ExternalReferenceSelected.is_met(&McgStatus { irefst: false, ..base }));
    assert!(!Wait::PllSelected.is_met(&base));
    assert!(Wait::PllSelected.is_met(&McgStatus { pllst: true, ..base }));
    assert!(!Wait::PllLocked.is_met(&base));
    assert!(Wait::PllLocked.is_met(&McgStatus { lock0: true, ..base }));
    for clkst in [
        ClockStatus::Fll,
        ClockStatus::InternalReference,
        ClockStatus::ExternalReference,
        ClockStatus::Pll,
    ] {
        let status = McgStatus { clkst, ..base };
        assert_eq!(Wait::ExternalClockSelected.is_met(&status), clkst == ClockStatus::ExternalReference);
        assert_eq!(Wait::PllClockSelected.is_met(&status), clkst == ClockStatus::Pll);
    }
}

#[test]
fn control_codes_must_fit_their_fields() {
    assert!(reset_control().is_valid());
    assert!(McgControl { frdiv: 7, prdiv0: 31, vdiv0: 31, ..reset_control() }.is_valid());
    assert!(!McgControl { frdiv: 8, ..reset_control() }.is_valid());
    assert!(!McgControl { prdiv0: 32, ..reset_control() }.is_valid());
    assert!(!McgControl { vdiv0: 32, ..reset_control() }.is_valid());
}
