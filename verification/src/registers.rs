//! The registers of the device: where they are and what is written to them.

use vstd::prelude::*;
use crate::error::ScannerError;
use crate::{Barcodes, IlluminationMode, OperationMode, ScanArea, TargetLightMode};

verus! {

/// Register of the operation mode, lights and buzzer.
pub const ADDRESS_MODE: u16 = 0x0000;

/// Register that starts and stops a scan.
pub const ADDRESS_SCAN: u16 = 0x0002;

/// Register that tells whether barcodes may change the settings.
pub const ADDRESS_SETTING_CODES: u16 = 0x0003;

/// Register of the scan timeout, in tenths of a second.
pub const ADDRESS_SCAN_TIMEOUT: u16 = 0x0006;

/// Register of the scan area and the recognised barcode types.
pub const ADDRESS_SCAN_AREA: u16 = 0x002c;

/// Register of the layout of the scan data.
pub const ADDRESS_RESULT_OPTIONS: u16 = 0x0060;

/// Register that restores the factory defaults.
pub const ADDRESS_FACTORY_RESET: u16 = 0x00d9;

/// Register of the hardware version.
pub const ADDRESS_HW_VERSION: u16 = 0x00e1;

/// Register of the software version.
pub const ADDRESS_SW_VERSION: u16 = 0x00e2;

/// Register of the year of the software build date, counted from 2000.
pub const ADDRESS_SW_YEAR: u16 = 0x00e3;

/// Register of the month of the software build date.
pub const ADDRESS_SW_MONTH: u16 = 0x00e4;

/// Register of the day of the software build date.
pub const ADDRESS_SW_DAY: u16 = 0x00e5;

/// Layout of the scan data that the decoder relies on: the barcode type in
/// front of the data (0x04) and a carriage return behind it (0x01); no
/// protocol frame, no prefix, no suffix.
pub const RESULT_OPTIONS: u8 = 0x05;

/// The value that, written to the reset register, restores the defaults.
pub const FACTORY_RESET: u8 = 0x50;

/// The longest scan timeout that the device can be told, in milliseconds.
pub const MAX_SCAN_TIMEOUT: u64 = 25500;

/// The scan timeout that the device starts with, in milliseconds.
pub const DEFAULT_SCAN_TIMEOUT: u64 = 5000;

/// The value of the mode register for the given choices: the indicator LED in
/// bit 7, the buzzer in bit 6, the target light in bits 5 and 4, the
/// illumination in bits 3 and 2, the operation mode in bits 1 and 0.
pub open spec fn mode_value(
    led_indication: bool,
    buzzer: bool,
    target_light: TargetLightMode,
    illumination: IlluminationMode,
    operation: OperationMode,
) -> u8 {
    ((if led_indication {
        0x80int
    } else {
        0
    }) + (if buzzer {
        0x40int
    } else {
        0
    }) + (match target_light {
        TargetLightMode::AlwaysOff => 0x00int,
        TargetLightMode::AlwaysOn => 0x20,
        TargetLightMode::Standard => 0x10,
    }) + (match illumination {
        IlluminationMode::AlwaysOff => 0x00int,
        IlluminationMode::AlwaysOn => 0x08,
        IlluminationMode::Standard => 0x04,
    }) + (match operation {
        OperationMode::Manual => 0x00int,
        OperationMode::Command => 0x01,
        OperationMode::Continuous => 0x02,
        OperationMode::Sensing => 0x03,
    })) as u8
}

/// The value of the scan area register for the given choices: the area in
/// bit 3, the recognised barcode types in bits 2 and 1.
pub open spec fn scan_area_value(scan_area: ScanArea, allowed_barcodes: Barcodes) -> u8 {
    ((match scan_area {
        ScanArea::All => 0x00int,
        ScanArea::Center => 0x08,
    }) + (match allowed_barcodes {
        Barcodes::EnableAll => 0x02int,
        Barcodes::DisableAll => 0x00,
        Barcodes::Default => 0x04,
    })) as u8
}

/// The value of the timeout register for a scan timeout in milliseconds: the
/// whole tenths of a second, for a timeout from one millisecond to 25.5
/// seconds. Zero, which the device takes for waiting indefinitely, and longer
/// timeouts are refused.
pub open spec fn timeout_value(millis: u64) -> Result<u8, ScannerError> {
    if millis > MAX_SCAN_TIMEOUT {
        Err(ScannerError::TimeoutTooLong { millis })
    } else if millis == 0 {
        Err(ScannerError::TimeoutUnsupported)
    } else {
        Ok((millis / 100) as u8)
    }
}

/// The value of the setting codes register that, from its current value,
/// allows or forbids barcodes that change the settings: bits 1 and 0 become
/// `00` to allow them and `10` to forbid them, the other bits stay.
pub open spec fn setting_codes_value(current: u8, enable: bool) -> u8 {
    if enable {
        current & 0xfc
    } else {
        (current & 0xfe) | 0x02
    }
}

/// Encodes the mode register.
pub fn encode_mode(
    led_indication: bool,
    buzzer: bool,
    target_light: TargetLightMode,
    illumination: IlluminationMode,
    operation: OperationMode,
) -> (value: u8)
    ensures
        value == mode_value(led_indication, buzzer, target_light, illumination, operation),
{
    let mut value: u8 = 0x00;
    if led_indication {
        value = value + 0x80;
    }
    if buzzer {
        value = value + 0x40;
    }
    match target_light {
        TargetLightMode::AlwaysOff => {},
        TargetLightMode::AlwaysOn => value = value + 0x20,
        TargetLightMode::Standard => value = value + 0x10,
    }
    match illumination {
        IlluminationMode::AlwaysOff => {},
        IlluminationMode::AlwaysOn => value = value + 0x08,
        IlluminationMode::Standard => value = value + 0x04,
    }
    match operation {
        OperationMode::Manual => {},
        OperationMode::Command => value = value + 0x01,
        OperationMode::Continuous => value = value + 0x02,
        OperationMode::Sensing => value = value + 0x03,
    }
    value
}

/// Encodes the scan area register.
pub fn encode_scan_area(scan_area: ScanArea, allowed_barcodes: Barcodes) -> (value: u8)
    ensures
        value == scan_area_value(scan_area, allowed_barcodes),
{
    let mut value: u8 = 0x00;
    match scan_area {
        ScanArea::All => {},
        ScanArea::Center => value = value + 0x08,
    }
    match allowed_barcodes {
        Barcodes::EnableAll => value = value + 0x02,
        Barcodes::DisableAll => {},
        Barcodes::Default => value = value + 0x04,
    }
    value
}

/// Encodes a scan timeout in milliseconds for the timeout register.
pub fn encode_timeout(millis: u64) -> (value: Result<u8, ScannerError>)
    ensures
        value == timeout_value(millis),
        value is Ok <==> 1 <= millis <= MAX_SCAN_TIMEOUT,
{
    if millis > MAX_SCAN_TIMEOUT {
        return Err(ScannerError::TimeoutTooLong { millis });
    }
    if millis == 0 {
        return Err(ScannerError::TimeoutUnsupported);
    }
    Ok((millis / 100) as u8)
}

/// Changes the value of the setting codes register so that barcodes that
/// change the settings are allowed or forbidden.
pub fn encode_setting_codes(current: u8, enable: bool) -> (value: u8)
    ensures
        value == setting_codes_value(current, enable),
{
    if enable {
        current & 0xfc
    } else {
        (current & 0xfe) | 0x02
    }
}

/// The barcode types that the device can be told to recognise or to ignore.
#[derive(Clone, Copy, Debug, PartialEq, Eq, Structural)]
pub enum Symbology {
    Ean13,
    Ean8,
    RssStack,
    Rss14,
    LimitedRss,
    ExpandedRss,
    Msi,
    Code11,
    Matrix2of5,
    Industrial,
    Codebar,
    Code128,
    Code39,
    Code93,
    Upca,
    Upce0,
    Upce1,
    Pdf417,
    MicroPdf417,
    Isbn,
    Issn,
    DotMatrix,
    Qr,
    MicroQr,
    Interleaved2of5,
}

impl Symbology {
    /// The register that switches the barcode type on and off.
    pub open spec fn register(self) -> u16 {
        match self {
            Symbology::Ean13 => 0x002e,
            Symbology::Ean8 => 0x002f,
            Symbology::RssStack => 0x0026,
            Symbology::Rss14 => 0x004f,
            Symbology::LimitedRss => 0x0050,
            Symbology::ExpandedRss => 0x0051,
            Symbology::Msi => 0x004c,
            Symbology::Code11 => 0x0049,
            Symbology::Matrix2of5 => 0x0046,
            Symbology::Industrial => 0x0043,
            Symbology::Codebar => 0x003c,
            Symbology::Code128 => 0x0033,
            Symbology::Code39 => 0x0036,
            Symbology::Code93 => 0x0039,
            Symbology::Upca => 0x0030,
            Symbology::Upce0 => 0x0031,
            Symbology::Upce1 => 0x0032,
            Symbology::Pdf417 => 0x0055,
            Symbology::MicroPdf417 => 0x0029,
            Symbology::Isbn => 0x0057,
            Symbology::Issn => 0x0056,
            Symbology::DotMatrix => 0x0054,
            Symbology::Qr => 0x003f,
            Symbology::MicroQr => 0x005f,
            Symbology::Interleaved2of5 => 0x0040,
        }
    }

    /// Whether the device keeps a shortest and a longest accepted length for
    /// the barcode type. Where it does, the two registers follow the one that
    /// switches the type.
    pub open spec fn has_lengths(self) -> bool {
        match self {
            Symbology::ExpandedRss
            | Symbology::Msi
            | Symbology::Code11
            | Symbology::Matrix2of5
            | Symbology::Industrial
            | Symbology::Codebar
            | Symbology::Code128
            | Symbology::Code39
            | Symbology::Code93
            | Symbology::Interleaved2of5 => true,
            _ => false,
        }
    }

    /// The register of the shortest accepted length.
    pub open spec fn min_register(self) -> u16
        recommends
            self.has_lengths(),
    {
        (self.register() + 1) as u16
    }

    /// The register of the longest accepted length.
    pub open spec fn max_register(self) -> u16
        recommends
            self.has_lengths(),
    {
        (self.register() + 2) as u16
    }

    /// The register writes, in order, that switch the barcode type on or off.
    ///
    /// To switch it off is one write of zero. To switch it on, the shortest
    /// and the longest accepted length are written first, each where one is
    /// given and the type has such a register, then `enabled` is written to
    /// the register of the type.
    pub open spec fn writes(
        self,
        enable: bool,
        enabled: u8,
        min_length: Option<u8>,
        max_length: Option<u8>,
    ) -> Seq<(u16, u8)> {
        if enable {
            (match min_length {
                Some(length) if self.has_lengths() => seq![(self.min_register(), length)],
                _ => Seq::empty(),
            }) + (match max_length {
                Some(length) if self.has_lengths() => seq![(self.max_register(), length)],
                _ => Seq::empty(),
            }) + seq![(self.register(), enabled)]
        } else {
            seq![(self.register(), 0u8)]
        }
    }

    /// The register that switches the barcode type on and off.
    pub fn address(self) -> (address: u16)
        ensures
            address == self.register(),
            address <= 0x005f,
    {
        match self {
            Symbology::Ean13 => 0x002e,
            Symbology::Ean8 => 0x002f,
            Symbology::RssStack => 0x0026,
            Symbology::Rss14 => 0x004f,
            Symbology::LimitedRss => 0x0050,
            Symbology::ExpandedRss => 0x0051,
            Symbology::Msi => 0x004c,
            Symbology::Code11 => 0x0049,
            Symbology::Matrix2of5 => 0x0046,
            Symbology::Industrial => 0x0043,
            Symbology::Codebar => 0x003c,
            Symbology::Code128 => 0x0033,
            Symbology::Code39 => 0x0036,
            Symbology::Code93 => 0x0039,
            Symbology::Upca => 0x0030,
            Symbology::Upce0 => 0x0031,
            Symbology::Upce1 => 0x0032,
            Symbology::Pdf417 => 0x0055,
            Symbology::MicroPdf417 => 0x0029,
            Symbology::Isbn => 0x0057,
            Symbology::Issn => 0x0056,
            Symbology::DotMatrix => 0x0054,
            Symbology::Qr => 0x003f,
            Symbology::MicroQr => 0x005f,
            Symbology::Interleaved2of5 => 0x0040,
        }
    }

    /// Whether the device keeps a shortest and a longest accepted length for
    /// the barcode type.
    pub fn keeps_lengths(self) -> (kept: bool)
        ensures
            kept == self.has_lengths(),
    {
        match self {
            Symbology::ExpandedRss
            | Symbology::Msi
            | Symbology::Code11
            | Symbology::Matrix2of5
            | Symbology::Industrial
            | Symbology::Codebar
            | Symbology::Code128
            | Symbology::Code39
            | Symbology::Code93
            | Symbology::Interleaved2of5 => true,
            _ => false,
        }
    }

    /// Lists the register writes, in order, that switch the barcode type on
    /// or off.
    pub fn plan(
        self,
        enable: bool,
        enabled: u8,
        min_length: Option<u8>,
        max_length: Option<u8>,
    ) -> (writes: Vec<(u16, u8)>)
        ensures
            writes@ == self.writes(enable, enabled, min_length, max_length),
            1 <= writes.len() <= 3,
    {
        let address = self.address();
        let mut writes: Vec<(u16, u8)> = Vec::new();
        if enable {
            if self.keeps_lengths() {
                if let Some(length) = min_length {
                    writes.push((address + 1, length));
                }
                if let Some(length) = max_length {
                    writes.push((address + 2, length));
                }
            }
            writes.push((address, enabled));
        } else {
            writes.push((address, 0));
        }
        writes
    }
}

/// Changing the setting codes register touches its two lowest bits only:
/// they become `00` to allow setting codes and `10` to forbid them.
pub proof fn lemma_setting_codes_bits(current: u8, enable: bool)
    ensures
        setting_codes_value(current, enable) & 0xfc == current & 0xfc,
        setting_codes_value(current, enable) & 0x03 == if enable {
            0x00u8
        } else {
            0x02u8
        },
{
    assert((current & 0xfc) & 0xfc == current & 0xfc) by (bit_vector);
    assert((current & 0xfc) & 0x03 == 0x00u8) by (bit_vector);
    assert(((current & 0xfe) | 0x02) & 0xfc == current & 0xfc) by (bit_vector);
    assert(((current & 0xfe) | 0x02) & 0x03 == 0x02u8) by (bit_vector);
}

/// The timeout register holds the whole tenths of a second of the timeout:
/// as many as fit, and never more than 255.
pub proof fn lemma_timeout_in_tenths(millis: u64)
    requires
        1 <= millis <= MAX_SCAN_TIMEOUT,
    ensures
        timeout_value(millis) is Ok,
        timeout_value(millis)->Ok_0 * 100 <= millis < (timeout_value(millis)->Ok_0 + 1) * 100,
        millis == MAX_SCAN_TIMEOUT ==> timeout_value(millis)->Ok_0 == 255,
{
}

} // verus!
