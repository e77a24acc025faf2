use mk20d7_hal::sim::{
    decode_divider, encode_divider, ClockDividerRegister, DividerError, SystemIntegrationModule,
    MAXIMUM_CLOCK_FREQUENCY,
};

fn reset() -> SystemIntegrationModule {
    SystemIntegrationModule::new(ClockDividerRegister { outdiv1: 0, outdiv2: 0, outdiv4: 1 })
}

#[test]
fn maximum_clock_frequency_is_72() {
    assert_eq!(MAXIMUM_CLOCK_FREQUENCY, 72);
}

#[test]
fn divider_code_is_value_minus_one() {
    assert_eq!(encode_divider(1), Some(0));
    assert_eq!(encode_divider(2), Some(1));
    assert_eq!(encode_divider(9), Some(8));
    assert_eq!(encode_divider(16), Some(15));
    assert_eq!(decode_divider(0), 1);
    assert_eq!(decode_divider(15), 16);
}

#[test]
fn divider_round_trips_for_all_values_1_to_16() {
    for value in 1i8..=16 {
        let code = encode_divider(value).unwrap();
        assert!(code < 16);
        assert_eq!(code as i8, value - 1);
        assert_eq!(decode_divider(code), value);
    }
    for code in 0u8..16 {
        assert_eq!(encode_divider(decode_divider(code)), Some(code));
    }
}

#[test]
fn dividers_0_and_17_are_rejected() {
    assert_eq!(encode_divider(0), None);
    assert_eq!(encode_divider(17), None);
    assert_eq!(encode_divider(-1), None);
    assert_eq!(encode_divider(i8::MIN), None);
    assert_eq!(encode_divider(i8::MAX), None);
}

#[test]
fn set_dividers_then_get_dividers_gives_them_back() {
    for core in 1i8..=16 {
        for bus in 1i8..=16 {
            for flash in 1i8..=16 {
                let mut sim = reset();
                assert_eq!(sim.set_dividers(core, bus, flash), Ok(()));
                assert!(sim.clkdiv1.is_valid());
                assert_eq!(sim.get_dividers(), (core, bus, flash));
            }
        }
    }
}

#[test]
fn set_dividers_writes_the_three_codes() {
    let mut sim = reset();
    assert_eq!(sim.set_dividers(1, 2, 3), Ok(()));
    assert_eq!(sim.clkdiv1, ClockDividerRegister { outdiv1: 0, outdiv2: 1, outdiv4: 2 });
    assert_eq!(sim.set_dividers(16, 8, 4), Ok(()));
    assert_eq!(sim.clkdiv1, ClockDividerRegister { outdiv1: 15, outdiv2: 7, outdiv4: 3 });
}

#[test]
fn set_dividers_reports_the_first_illegal_divider_and_writes_nothing() {
    let mut sim = reset();
    let before = sim.clkdiv1;
    assert_eq!(sim.set_dividers(0, 1, 1), Err(DividerError::Core(0)));
    assert_eq!(sim.clkdiv1, before);
    assert_eq!(sim.set_dividers(17, 0, 0), Err(DividerError::Core(17)));
    assert_eq!(sim.clkdiv1, before);
    assert_eq!(sim.set_dividers(1, 17, 0), Err(DividerError::Bus(17)));
    assert_eq!(sim.clkdiv1, before);
    assert_eq!(sim.set_dividers(1, 0, 1), Err(DividerError::Bus(0)));
    assert_eq!(sim.clkdiv1, before);
    assert_eq!(sim.set_dividers(1, 2, 17), Err(DividerError::Flash(17)));
    assert_eq!(sim.clkdiv1, before);
    assert_eq!(sim.set_dividers(1, 2, 0), Err(DividerError::Flash(0)));
    assert_eq!(sim.clkdiv1, before);
    assert_eq!(sim.get_dividers(), (1, 1, 2));
}

#[test]
fn register_codes_above_four_bits_are_not_valid() {
    assert!(ClockDividerRegister { outdiv1: 15, outdiv2: 15, outdiv4: 15 }.is_valid());
    assert!(!ClockDividerRegister { outdiv1: 16, outdiv2: 0, outdiv4: 0 }.is_valid());
    assert!(!ClockDividerRegister { outdiv1: 0, outdiv2: 16, outdiv4: 0 }.is_valid());
    assert!(!ClockDividerRegister { outdiv1: 0, outdiv2: 0, outdiv4: 16 }.is_valid());
}
