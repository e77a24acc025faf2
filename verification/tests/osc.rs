use mk20d7_hal::osc::{
    binary_to_decimal, decimal_to_binary, Oscillator, OscillatorControl, OscillatorError,
    CAPACITANCE_MAX,
};

fn reset() -> Oscillator {
    Oscillator::new(OscillatorControl {
        erclken: false,
        sc2p: false,
        sc4p: false,
        sc8p: false,
        sc16p: false,
    })
}

#[test]
fn capacitance_31_is_rejected() {
    let mut osc = reset();
    assert_eq!(osc.set_capacitance(31), Err(OscillatorError::InvalidCapacitance(31)));
    assert_eq!(osc.get_capacitance(), 0);
}

#[test]
fn capacitance_30_is_accepted_and_round_trips() {
    let mut osc = reset();
    assert_eq!(osc.set_capacitance(30), Ok(()));
    assert_eq!(osc.get_capacitance(), 30);
    assert_eq!(
        osc.cr,
        OscillatorControl { erclken: false, sc2p: true, sc4p: true, sc8p: true, sc16p: true }
    );
}

#[test]
fn every_even_capacitance_up_to_30_round_trips() {
    assert_eq!(CAPACITANCE_MAX, 30);
    for capacitance in (0u8..=30).step_by(2) {
        let mut osc = reset();
        assert_eq!(osc.set_capacitance(capacitance), Ok(()));
        assert_eq!(osc.get_capacitance(), capacitance);
    }
}

#[test]
fn odd_and_large_capacitances_are_rejected_and_change_nothing() {
    let mut osc = reset();
    assert_eq!(osc.set_capacitance(10), Ok(()));
    let before = osc.cr;
    for capacitance in 0u8..=255 {
        if capacitance % 2 == 1 || capacitance > 30 {
            assert_eq!(
                osc.set_capacitance(capacitance),
                Err(OscillatorError::InvalidCapacitance(capacitance))
            );
            assert_eq!(osc.cr, before);
        }
    }
    assert_eq!(osc.set_capacitance(32), Err(OscillatorError::InvalidCapacitance(32)));
    assert_eq!(osc.set_capacitance(1), Err(OscillatorError::InvalidCapacitance(1)));
    assert_eq!(osc.get_capacitance(), 10);
}

#[test]
fn capacitors_are_switched_by_the_bits_of_the_load() {
    let mut osc = reset();
    assert_eq!(osc.set_capacitance(2), Ok(()));
    assert_eq!((osc.cr.sc2p, osc.cr.sc4p, osc.cr.sc8p, osc.cr.sc16p), (true, false, false, false));
    assert_eq!(osc.set_capacitance(4), Ok(()));
    assert_eq!((osc.cr.sc2p, osc.cr.sc4p, osc.cr.sc8p, osc.cr.sc16p), (false, true, false, false));
    assert_eq!(osc.set_capacitance(8), Ok(()));
    assert_eq!((osc.cr.sc2p, osc.cr.sc4p, osc.cr.sc8p, osc.cr.sc16p), (false, false, true, false));
    assert_eq!(osc.set_capacitance(16), Ok(()));
    assert_eq!((osc.cr.sc2p, osc.cr.sc4p, osc.cr.sc8p, osc.cr.sc16p), (false, false, false, true));
    assert_eq!(osc.set_capacitance(22), Ok(()));
    assert_eq!((osc.cr.sc2p, osc.cr.sc4p, osc.cr.sc8p, osc.cr.sc16p), (true, true, false, true));
    assert_eq!(osc.set_capacitance(0), Ok(()));
    assert_eq!((osc.cr.sc2p, osc.cr.sc4p, osc.cr.sc8p, osc.cr.sc16p), (false, false, false, false));
}

#[test]
fn enable_and_disable_leave_the_capacitors_alone() {
    let mut osc = reset();
    assert!(!osc.is_enabled());
    assert_eq!(osc.set_capacitance(12), Ok(()));
    osc.enable();
    assert!(osc.is_enabled());
    assert_eq!(osc.get_capacitance(), 12);
    assert_eq!(osc.set_capacitance(18), Ok(()));
    assert!(osc.is_enabled());
    osc.disable();
    assert!(!osc.is_enabled());
    assert_eq!(osc.get_capacitance(), 18);
}

#[test]
fn decimal_to_binary_writes_the_digits_least_significant_first() {
    let mut binary = [false; 5];
    decimal_to_binary(&mut binary, 22);
    assert_eq!(binary, [false, true, true, false, true]);
    let mut byte = [false; 8];
    decimal_to_binary(&mut byte, 0b1010_0101);
    assert_eq!(byte, [true, false, true, false, false, true, false, true]);
    let mut short = [true; 3];
    decimal_to_binary(&mut short, 0b1111_1010);
    assert_eq!(short, [false, true, false]);
    let mut none: [bool; 0] = [];
    decimal_to_binary(&mut none, 255);
}

#[test]
fn binary_to_decimal_adds_the_powers_of_two() {
    assert_eq!(binary_to_decimal(&[]), 0);
    assert_eq!(binary_to_decimal(&[true]), 1);
    assert_eq!(binary_to_decimal(&[false, true]), 2);
    assert_eq!(binary_to_decimal(&[false, true, true, false, true]), 22);
    assert_eq!(binary_to_decimal(&[true; 8]), 255);
    assert_eq!(binary_to_decimal(&[false, false, false, false, false, false, false, true]), 128);
}

#[test]
fn binary_digits_round_trip_for_every_byte() {
    for decimal in 0u8..=255 {
        let mut binary = [false; 8];
        decimal_to_binary(&mut binary, decimal);
        assert_eq!(binary_to_decimal(&binary), decimal);
    }
    for decimal in 0u8..32 {
        let mut binary = [false; 5];
        decimal_to_binary(&mut binary, decimal);
        assert_eq!(binary_to_decimal(&binary), decimal);
    }
}
