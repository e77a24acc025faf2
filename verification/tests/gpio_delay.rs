use mk20d7_hal::delay::{reload_value, reload_value_ms, DelayError, RELOAD_MAX};
use mk20d7_hal::gpio::{pin_is_low, pin_mask, pin_mode_bits, PinMode, PinMux};

#[test]
fn reload_value_is_microseconds_times_megahertz() {
    assert_eq!(RELOAD_MAX, 1 << 24);
    assert_eq!(reload_value(0, 72), Ok(0));
    assert_eq!(reload_value(1, 72), Ok(72));
    assert_eq!(reload_value(1000, 72), Ok(72_000));
    assert_eq!(reload_value(1 << 24, 1), Ok(1 << 24));
    assert_eq!(reload_value(1 << 12, 1 << 12), Ok(1 << 24));
    assert_eq!(reload_value(u32::MAX, 0), Ok(0));
}

#[test]
fn delays_longer_than_the_timer_are_refused() {
    assert_eq!(
        reload_value((1 << 24) + 1, 1),
        Err(DelayError::TooLong { us: (1 << 24) + 1, core_frequency: 1 })
    );
    assert_eq!(
        reload_value(233_017, 72),
        Err(DelayError::TooLong { us: 233_017, core_frequency: 72 })
    );
    assert_eq!(reload_value(233_016, 72), Ok(16_777_152));
    assert_eq!(
        reload_value(u32::MAX, u32::MAX),
        Err(DelayError::TooLong { us: u32::MAX as u64, core_frequency: u32::MAX })
    );
}

#[test]
fn milliseconds_are_a_thousand_microseconds() {
    assert_eq!(reload_value_ms(0, 72), Ok(0));
    assert_eq!(reload_value_ms(1, 72), Ok(72_000));
    assert_eq!(reload_value_ms(233, 72), Ok(16_776_000));
    assert_eq!(
        reload_value_ms(234, 72),
        Err(DelayError::TooLong { us: 234_000, core_frequency: 72 })
    );
    assert_eq!(
        reload_value_ms(u32::MAX, 1),
        Err(DelayError::TooLong { us: u32::MAX as u64 * 1000, core_frequency: 1 })
    );
    assert_eq!(reload_value_ms(u32::MAX, 0), Ok(0));
    assert_eq!(reload_value_ms(16_777, 1), Ok(16_777_000));
    assert_eq!(
        reload_value_ms(16_778, 1),
        Err(DelayError::TooLong { us: 16_778_000, core_frequency: 1 })
    );
}

#[test]
fn alternate_function_n_has_code_n() {
    let all = [
        PinMux::ALT0,
        PinMux::ALT1,
        PinMux::ALT2,
        PinMux::ALT3,
        PinMux::ALT4,
        PinMux::ALT5,
        PinMux::ALT6,
        PinMux::ALT7,
    ];
    for (n, mux) in all.iter().enumerate() {
        assert_eq!(mux.to_code() as usize, n);
    }
}

#[test]
fn pin_masks_and_levels() {
    assert_eq!(pin_mask(0), 1);
    assert_eq!(pin_mask(5), 32);
    assert_eq!(pin_mask(31), 0x8000_0000);
    assert!(pin_is_low(0, 3));
    assert!(!pin_is_low(8, 3));
    assert!(pin_is_low(!8, 3));
    assert!(!pin_is_low(u32::MAX, 31));
}

#[test]
fn pin_mode_sets_the_bits_of_its_mask() {
    assert_eq!(pin_mode_bits(0, 3, PinMode::Output), 8);
    assert_eq!(pin_mode_bits(0b0101, 1, PinMode::Output), 0b0111);
    assert_eq!(pin_mode_bits(0, 3, PinMode::Input), !8);
    assert_eq!(pin_mode_bits(8, 3, PinMode::Input), u32::MAX);
}
