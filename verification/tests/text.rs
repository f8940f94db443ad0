use waveshare_barcodescanner::error::ScannerError;
use waveshare_barcodescanner::text::{push_decimal, push_latin1, push_upper_hex};
use waveshare_barcodescanner::version::{version_name, SoftwareDate, BUILD_YEAR_BASE};
use waveshare_barcodescanner::Barcode;

#[test]
fn linear_barcodes_as_text() {
    assert_eq!(
        Barcode::Interleaved2of5("0012".to_string()).to_text(),
        "interleaved2of5: 0012"
    );
    assert_eq!(Barcode::EAN13("123456789012".to_string()).to_text(), "EAN13: 123456789012");
    assert_eq!(Barcode::Code39("AB-1".to_string()).to_text(), "Code39: AB-1");
    assert_eq!(Barcode::Code128("ab 1".to_string()).to_text(), "Code128: ab 1");
    assert_eq!(Barcode::EAN13(String::new()).to_text(), "EAN13: ");
}

#[test]
fn matrix_barcodes_as_text() {
    assert_eq!(
        Barcode::QR(vec!["ABC".to_string(), "DEF".to_string()]).to_text(),
        "QR: 0: ABC\n1: DEF"
    );
    assert_eq!(Barcode::QR(vec!["ABC".to_string()]).to_text(), "QR: 0: ABC");
    assert_eq!(Barcode::QR(vec![]).to_text(), "QR: ");
    assert_eq!(
        Barcode::MicroQR(vec!["a".to_string(), "b".to_string(), "c".to_string()]).to_text(),
        "Micro QR: 0: a\n1: b\n2: c"
    );
    assert_eq!(
        Barcode::DotMatrix(vec!["x".to_string(), String::new()]).to_text(),
        "Dot Matrix: 0: x\n1: "
    );
}

#[test]
fn matrix_barcode_with_many_lines_as_text() {
    let lines: Vec<String> = (0..12).map(|index| format!("l{}", index)).collect();
    assert_eq!(
        Barcode::QR(lines).to_text(),
        "QR: 0: l0\n1: l1\n2: l2\n3: l3\n4: l4\n5: l5\n6: l6\n7: l7\n8: l8\n9: l9\n10: l10\n11: l11"
    );
}

#[test]
fn decimal_digits() {
    for (number, digits) in [
        (0usize, "0"),
        (7, "7"),
        (9, "9"),
        (10, "10"),
        (11, "11"),
        (99, "99"),
        (100, "100"),
        (255, "255"),
        (1000, "1000"),
        (65535, "65535"),
        (4294967295, "4294967295"),
    ] {
        let mut text = String::from(">");
        push_decimal(&mut text, number);
        assert_eq!(text, format!(">{}", digits));
        assert_eq!(text, format!(">{}", number));
    }
    let mut text = String::new();
    push_decimal(&mut text, usize::MAX);
    assert_eq!(text, format!("{}", usize::MAX));
}

#[test]
fn hexadecimal_digits() {
    for byte in 0..=255u8 {
        let mut text = String::from("x");
        push_upper_hex(&mut text, byte);
        assert_eq!(text, format!("x{:0X}", byte));
    }
    let mut text = String::new();
    push_upper_hex(&mut text, 0x0a);
    assert_eq!(text, "A");
    let mut text = String::new();
    push_upper_hex(&mut text, 0xa0);
    assert_eq!(text, "A0");
}

#[test]
fn bytes_as_characters() {
    let mut text = String::from("<");
    push_latin1(&mut text, b"abc");
    assert_eq!(text, "<abc");
    push_latin1(&mut text, &[0xe9, 0x20, 0xff]);
    assert_eq!(text, "<abc\u{e9} \u{ff}");
    push_latin1(&mut text, &[]);
    assert_eq!(text, "<abc\u{e9} \u{ff}");
    let every: Vec<u8> = (0..=255u8).collect();
    let mut text = String::new();
    push_latin1(&mut text, &every);
    let expected: String = every.iter().map(|&byte| byte as char).collect();
    assert_eq!(text, expected);
}

#[test]
fn version_names() {
    assert_eq!(version_name(0x64), "V1.00");
    assert_eq!(version_name(0x6e), "V1.10");
    assert_eq!(version_name(0x78), "V1.20");
    assert_eq!(version_name(0x82), "V1.30");
    assert_eq!(version_name(0x8c), "V1.40");
    assert_eq!(version_name(0x65), "unknown 65");
    assert_eq!(version_name(0x00), "unknown 0");
    assert_eq!(version_name(0x0f), "unknown F");
    assert_eq!(version_name(0x10), "unknown 10");
    assert_eq!(version_name(0xff), "unknown FF");
}

#[test]
fn build_dates() {
    assert_eq!(BUILD_YEAR_BASE, 2000);
    assert_eq!(
        SoftwareDate::from_registers(24, 2, 29),
        Ok(SoftwareDate { year: 2024, month: 2, day: 29 })
    );
    assert_eq!(
        SoftwareDate::from_registers(0, 1, 1),
        Ok(SoftwareDate { year: 2000, month: 1, day: 1 })
    );
    assert_eq!(
        SoftwareDate::from_registers(255, 12, 31),
        Ok(SoftwareDate { year: 2255, month: 12, day: 31 })
    );
    // 2000 is a leap year, 2100 and 2200 are not
    assert_eq!(
        SoftwareDate::from_registers(0, 2, 29),
        Ok(SoftwareDate { year: 2000, month: 2, day: 29 })
    );
    assert_eq!(
        SoftwareDate::from_registers(100, 2, 29),
        Err(ScannerError::InvalidDate { year: 2100, month: 2, day: 29 })
    );
    assert_eq!(
        SoftwareDate::from_registers(200, 2, 29),
        Err(ScannerError::InvalidDate { year: 2200, month: 2, day: 29 })
    );
    assert_eq!(
        SoftwareDate::from_registers(23, 2, 29),
        Err(ScannerError::InvalidDate { year: 2023, month: 2, day: 29 })
    );
    assert_eq!(
        SoftwareDate::from_registers(23, 4, 31),
        Err(ScannerError::InvalidDate { year: 2023, month: 4, day: 31 })
    );
    assert_eq!(
        SoftwareDate::from_registers(23, 0, 10),
        Err(ScannerError::InvalidDate { year: 2023, month: 0, day: 10 })
    );
    assert_eq!(
        SoftwareDate::from_registers(23, 13, 10),
        Err(ScannerError::InvalidDate { year: 2023, month: 13, day: 10 })
    );
    assert_eq!(
        SoftwareDate::from_registers(23, 5, 0),
        Err(ScannerError::InvalidDate { year: 2023, month: 5, day: 0 })
    );
    assert_eq!(
        SoftwareDate::from_registers(23, 5, 32),
        Err(ScannerError::InvalidDate { year: 2023, month: 5, day: 32 })
    );
    assert_eq!(
        SoftwareDate::from_registers(23, 255, 255),
        Err(ScannerError::InvalidDate { year: 2023, month: 255, day: 255 })
    );
}

#[test]
fn every_month_has_its_days() {
    let days = [31u8, 28, 31, 30, 31, 30, 31, 31, 30, 31, 30, 31];
    for month in 1..=12u8 {
        let last = days[month as usize - 1];
        for day in 1..=last {
            assert!(SoftwareDate::from_registers(23, month, day).is_ok());
        }
        assert!(SoftwareDate::from_registers(23, month, last + 1).is_err());
    }
}
