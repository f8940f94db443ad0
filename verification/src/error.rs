//! The failures that the protocol engine reports.

use vstd::prelude::*;

verus! {

/// Why a call on the scanner failed.
///
/// Every failure is handed to the immediate caller; the engine never retries.
#[derive(Clone, Copy, Debug, PartialEq, Eq, Structural)]
pub enum ScannerError {
    /// A reply held fewer bytes than the six that frame even an empty payload.
    ShortReply { received: usize },
    /// The first two bytes of a reply were not the reply header.
    InvalidHeader,
    /// The device answered with a non-zero status byte.
    DeviceStatus { code: u8 },
    /// The checksum carried by a frame differs from the one calculated over it.
    ChecksumMismatch { expected: u16, calculated: u16 },
    /// A reply declares more payload bytes than it has room for.
    PayloadOverrun { declared: usize, capacity: usize },
    /// A command frame cannot carry a payload or ask for a reply of this size.
    LengthOutOfRange { length: usize },
    /// A register read returned another number of bytes than the one asked for.
    IncorrectLength { asked: usize, received: usize },
    /// The link delivered nothing where a byte of scan data was due.
    NoData,
    /// The scan data is of a barcode type that the engine cannot decode.
    UnsupportedBarcode { code: u8 },
    /// The scan timeout is longer than the device can be told.
    TimeoutTooLong { millis: u64 },
    /// A scan timeout of zero, which the device takes for waiting indefinitely.
    TimeoutUnsupported,
    /// The device reported a build date that is no calendar date.
    InvalidDate { year: u16, month: u8, day: u8 },
    /// The caller reported something that the step in progress does not wait for.
    UnexpectedEvent,
}

} // verus!
