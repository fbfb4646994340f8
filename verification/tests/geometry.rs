use joyboot::bootloader::Bootloader;
use joyboot::status::BootloaderReason;

fn info_frame(exponent: u16, units: u16) -> [u8; 8] {
    [
        0x0f,
        0,
        (exponent & 0xff) as u8,
        (exponent >> 8) as u8,
        3,
        7,
        (units & 0xff) as u8,
        (units >> 8) as u8,
    ]
}

#[test]
fn decode_info_example() {
    let info = Bootloader::decode_bootloader_info([0x0f, 0, 16, 0, 0, 0, 2, 0]).unwrap();
    assert_eq!(info.flash_size(), 65536);
    assert_eq!(info.app_offset(), 131072);
}

#[test]
fn decode_info_fields() {
    let info = Bootloader::decode_bootloader_info([0x0f, 4, 10, 0, 1, 0x21, 0x08, 0x01]).unwrap();
    assert_eq!(info.response_code(), 4);
    assert_eq!(info.flash_size(), 1024);
    assert_eq!(info.bootloader_reason(), BootloaderReason::BootTokenPresent);
    assert_eq!(info.bootloader_version(), 0x21);
    assert_eq!(info.app_offset(), 0x108 * 1024);
}

#[test]
fn decode_info_unknown_reason() {
    let info = Bootloader::decode_bootloader_info([0x0f, 0, 0, 0, 200, 0, 0, 0]).unwrap();
    assert_eq!(info.bootloader_reason(), BootloaderReason::Unknown);
    assert_eq!(info.flash_size(), 1);
    assert_eq!(info.app_offset(), 0);
}

#[test]
fn flash_size_is_a_power_of_two() {
    for exponent in 0..32u16 {
        let info = Bootloader::decode_bootloader_info(info_frame(exponent, 0)).unwrap();
        assert_eq!(info.flash_size(), 1u32 << exponent);
        assert!(info.flash_size().is_power_of_two());
        assert_eq!(info.app_offset(), 0);
    }
}

#[test]
fn exponent_of_thirty_two_or_more_is_rejected() {
    assert_eq!(Bootloader::decode_bootloader_info(info_frame(32, 0)), None);
    assert_eq!(Bootloader::decode_bootloader_info(info_frame(33, 1)), None);
    assert_eq!(Bootloader::decode_bootloader_info(info_frame(256, 0)), None);
    assert_eq!(Bootloader::decode_bootloader_info(info_frame(0xffff, 0)), None);
}

#[test]
fn offset_that_overflows_is_rejected() {
    assert_eq!(Bootloader::decode_bootloader_info(info_frame(31, 2)), None);
    assert_eq!(Bootloader::decode_bootloader_info(info_frame(16, 0xffff)).unwrap().app_offset(), 0xffff_0000);
    assert_eq!(Bootloader::decode_bootloader_info(info_frame(17, 0xffff)), None);
    assert_eq!(Bootloader::decode_bootloader_info(info_frame(31, 1)).unwrap().app_offset(), 0x8000_0000);
}

#[test]
fn offset_is_a_multiple_of_the_flash_size() {
    for exponent in [0u16, 1, 8, 12, 16] {
        for units in [0u16, 1, 2, 255, 256, 4095] {
            let info = Bootloader::decode_bootloader_info(info_frame(exponent, units)).unwrap();
            assert_eq!(info.app_offset(), units as u32 * info.flash_size());
            assert_eq!(info.app_offset() % info.flash_size(), 0);
        }
    }
}
