use waveshare_barcodescanner::error::ScannerError;
use waveshare_barcodescanner::registers::{
    encode_mode, encode_scan_area, encode_setting_codes, encode_timeout, Symbology,
    ADDRESS_FACTORY_RESET, ADDRESS_HW_VERSION, ADDRESS_MODE, ADDRESS_RESULT_OPTIONS, ADDRESS_SCAN,
    ADDRESS_SCAN_AREA, ADDRESS_SCAN_TIMEOUT, ADDRESS_SETTING_CODES, ADDRESS_SW_DAY,
    ADDRESS_SW_MONTH, ADDRESS_SW_VERSION, ADDRESS_SW_YEAR, DEFAULT_SCAN_TIMEOUT, FACTORY_RESET,
    MAX_SCAN_TIMEOUT, RESULT_OPTIONS,
};
use waveshare_barcodescanner::{
    Barcodes, IlluminationMode, OperationMode, ScanArea, TargetLightMode,
};

#[test]
fn register_addresses() {
    assert_eq!(ADDRESS_MODE, 0x0000);
    assert_eq!(ADDRESS_SCAN, 0x0002);
    assert_eq!(ADDRESS_SETTING_CODES, 0x0003);
    assert_eq!(ADDRESS_SCAN_TIMEOUT, 0x0006);
    assert_eq!(ADDRESS_SCAN_AREA, 0x002c);
    assert_eq!(ADDRESS_RESULT_OPTIONS, 0x0060);
    assert_eq!(ADDRESS_FACTORY_RESET, 0x00d9);
    assert_eq!(ADDRESS_HW_VERSION, 0x00e1);
    assert_eq!(ADDRESS_SW_VERSION, 0x00e2);
    assert_eq!(ADDRESS_SW_YEAR, 0x00e3);
    assert_eq!(ADDRESS_SW_MONTH, 0x00e4);
    assert_eq!(ADDRESS_SW_DAY, 0x00e5);
    assert_eq!(RESULT_OPTIONS, 0x05);
    assert_eq!(FACTORY_RESET, 0x50);
    assert_eq!(MAX_SCAN_TIMEOUT, 25500);
    assert_eq!(DEFAULT_SCAN_TIMEOUT, 5000);
}

#[test]
fn mode_register_bits() {
    let off = encode_mode(
        false,
        false,
        TargetLightMode::AlwaysOff,
        IlluminationMode::AlwaysOff,
        OperationMode::Manual,
    );
    assert_eq!(off, 0x00);
    let led = encode_mode(
        true,
        false,
        TargetLightMode::AlwaysOff,
        IlluminationMode::AlwaysOff,
        OperationMode::Manual,
    );
    assert_eq!(led, 0x80);
    let buzzer = encode_mode(
        false,
        true,
        TargetLightMode::AlwaysOff,
        IlluminationMode::AlwaysOff,
        OperationMode::Manual,
    );
    assert_eq!(buzzer, 0x40);
    for (target, bits) in [
        (TargetLightMode::AlwaysOff, 0x00),
        (TargetLightMode::AlwaysOn, 0x20),
        (TargetLightMode::Standard, 0x10),
    ] {
        let value =
            encode_mode(false, false, target, IlluminationMode::AlwaysOff, OperationMode::Manual);
        assert_eq!(value, bits);
    }
    for (illumination, bits) in [
        (IlluminationMode::AlwaysOff, 0x00),
        (IlluminationMode::AlwaysOn, 0x08),
        (IlluminationMode::Standard, 0x04),
    ] {
        let value =
            encode_mode(false, false, TargetLightMode::AlwaysOff, illumination, OperationMode::Manual);
        assert_eq!(value, bits);
    }
    for (operation, bits) in [
        (OperationMode::Manual, 0x00),
        (OperationMode::Command, 0x01),
        (OperationMode::Continuous, 0x02),
        (OperationMode::Sensing, 0x03),
    ] {
        let value = encode_mode(
            false,
            false,
            TargetLightMode::AlwaysOff,
            IlluminationMode::AlwaysOff,
            operation,
        );
        assert_eq!(value, bits);
    }
    let all = encode_mode(
        true,
        true,
        TargetLightMode::AlwaysOn,
        IlluminationMode::AlwaysOn,
        OperationMode::Sensing,
    );
    assert_eq!(all, 0xeb);
    let usual = encode_mode(
        false,
        false,
        TargetLightMode::Standard,
        IlluminationMode::Standard,
        OperationMode::Command,
    );
    assert_eq!(usual, 0x15);
}

#[test]
fn scan_area_register_bits() {
    assert_eq!(encode_scan_area(ScanArea::All, Barcodes::DisableAll), 0x00);
    assert_eq!(encode_scan_area(ScanArea::All, Barcodes::EnableAll), 0x02);
    assert_eq!(encode_scan_area(ScanArea::All, Barcodes::Default), 0x04);
    assert_eq!(encode_scan_area(ScanArea::Center, Barcodes::DisableAll), 0x08);
    assert_eq!(encode_scan_area(ScanArea::Center, Barcodes::EnableAll), 0x0a);
    assert_eq!(encode_scan_area(ScanArea::Center, Barcodes::Default), 0x0c);
}

#[test]
fn timeout_register_value() {
    assert_eq!(encode_timeout(25500), Ok(255));
    assert_eq!(encode_timeout(25501), Err(ScannerError::TimeoutTooLong { millis: 25501 }));
    assert_eq!(encode_timeout(0), Err(ScannerError::TimeoutUnsupported));
    assert_eq!(encode_timeout(5000), Ok(50));
    assert_eq!(encode_timeout(100), Ok(1));
    assert_eq!(encode_timeout(199), Ok(1));
    assert_eq!(encode_timeout(200), Ok(2));
    assert_eq!(encode_timeout(1), Ok(0));
    assert_eq!(encode_timeout(99), Ok(0));
    assert_eq!(encode_timeout(25499), Ok(254));
    assert_eq!(encode_timeout(u64::MAX), Err(ScannerError::TimeoutTooLong { millis: u64::MAX }));
}

#[test]
fn setting_codes_register_value() {
    assert_eq!(encode_setting_codes(0xff, false), 0xfe);
    assert_eq!(encode_setting_codes(0x00, false), 0x02);
    assert_eq!(encode_setting_codes(0x01, false), 0x02);
    assert_eq!(encode_setting_codes(0xa5, false), 0xa6);
    assert_eq!(encode_setting_codes(0xff, true), 0xfc);
    assert_eq!(encode_setting_codes(0x03, true), 0x00);
    assert_eq!(encode_setting_codes(0xa6, true), 0xa4);
    for current in 0..=255u8 {
        assert_eq!(encode_setting_codes(current, true) & 0x03, 0x00);
        assert_eq!(encode_setting_codes(current, false) & 0x03, 0x02);
        assert_eq!(encode_setting_codes(current, true) & 0xfc, current & 0xfc);
        assert_eq!(encode_setting_codes(current, false) & 0xfc, current & 0xfc);
    }
}

#[test]
fn symbology_registers() {
    let table = [
        (Symbology::Ean13, 0x002e, false),
        (Symbology::Ean8, 0x002f, false),
        (Symbology::RssStack, 0x0026, false),
        (Symbology::Rss14, 0x004f, false),
        (Symbology::LimitedRss, 0x0050, false),
        (Symbology::ExpandedRss, 0x0051, true),
        (Symbology::Msi, 0x004c, true),
        (Symbology::Code11, 0x0049, true),
        (Symbology::Matrix2of5, 0x0046, true),
        (Symbology::Industrial, 0x0043, true),
        (Symbology::Codebar, 0x003c, true),
        (Symbology::Code128, 0x0033, true),
        (Symbology::Code39, 0x0036, true),
        (Symbology::Code93, 0x0039, true),
        (Symbology::Upca, 0x0030, false),
        (Symbology::Upce0, 0x0031, false),
        (Symbology::Upce1, 0x0032, false),
        (Symbology::Pdf417, 0x0055, false),
        (Symbology::MicroPdf417, 0x0029, false),
        (Symbology::Isbn, 0x0057, false),
        (Symbology::Issn, 0x0056, false),
        (Symbology::DotMatrix, 0x0054, false),
        (Symbology::Qr, 0x003f, false),
        (Symbology::MicroQr, 0x005f, false),
        (Symbology::Interleaved2of5, 0x0040, true),
    ];
    for (symbology, address, lengths) in table {
        assert_eq!(symbology.address(), address);
        assert_eq!(symbology.keeps_lengths(), lengths);
        assert_eq!(symbology.plan(false, 0x01, Some(1), Some(2)), vec![(address, 0x00)]);
        assert_eq!(symbology.plan(true, 0x01, None, None), vec![(address, 0x01)]);
        if lengths {
            assert_eq!(
                symbology.plan(true, 0x03, Some(7), Some(9)),
                vec![(address + 1, 7), (address + 2, 9), (address, 0x03)]
            );
            assert_eq!(
                symbology.plan(true, 0x01, None, Some(9)),
                vec![(address + 2, 9), (address, 0x01)]
            );
            assert_eq!(
                symbology.plan(true, 0x01, Some(7), None),
                vec![(address + 1, 7), (address, 0x01)]
            );
        } else {
            assert_eq!(symbology.plan(true, 0x01, Some(7), Some(9)), vec![(address, 0x01)]);
        }
    }
}
