use joyboot::status::{bootloader_error_from_u8, dumb_from, BootloaderError, BootloaderReason};

#[test]
fn reason_codes_decode() {
    assert_eq!(dumb_from(0), BootloaderReason::NotEnteringBootloader);
    assert_eq!(dumb_from(1), BootloaderReason::BootTokenPresent);
    assert_eq!(dumb_from(2), BootloaderReason::BootFailedTooManyTimes);
    assert_eq!(dumb_from(3), BootloaderReason::NoProgramPresent);
    assert_eq!(dumb_from(4), BootloaderReason::ButtonHeldDown);
}

#[test]
fn unknown_reason_codes_fall_back() {
    for code in 5..=255u8 {
        assert_eq!(dumb_from(code), BootloaderReason::Unknown);
    }
}

#[test]
fn reason_from_u8_agrees_with_dumb_from() {
    for code in 0..=255u8 {
        assert_eq!(BootloaderReason::from(code), dumb_from(code));
    }
    let reason: BootloaderReason = 3u8.into();
    assert_eq!(reason, BootloaderReason::NoProgramPresent);
}

#[test]
fn error_codes_decode() {
    assert_eq!(bootloader_error_from_u8(0), BootloaderError::NoError);
    assert_eq!(bootloader_error_from_u8(1), BootloaderError::UnhandledCommand);
    assert_eq!(bootloader_error_from_u8(2), BootloaderError::AddressOutOfRange);
    assert_eq!(bootloader_error_from_u8(3), BootloaderError::NoAddressSet);
    assert_eq!(bootloader_error_from_u8(4), BootloaderError::SubsystemError);
    assert_eq!(bootloader_error_from_u8(5), BootloaderError::AddressNotValid);
    assert_eq!(bootloader_error_from_u8(6), BootloaderError::SizeNotValid);
    assert_eq!(bootloader_error_from_u8(7), BootloaderError::KeyNotValid);
    assert_eq!(bootloader_error_from_u8(8), BootloaderError::FlashNotErased);
}

#[test]
fn unknown_error_codes_fall_back() {
    for code in 9..=255u8 {
        assert_eq!(bootloader_error_from_u8(code), BootloaderError::Unknown);
    }
}

#[test]
fn only_zero_is_no_error() {
    for code in 1..=255u8 {
        assert_ne!(bootloader_error_from_u8(code), BootloaderError::NoError);
    }
}
