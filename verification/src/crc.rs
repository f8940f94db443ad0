//! Checksum engine: the 16-bit CRC that guards every frame.

use vstd::prelude::*;
use crc_any::CRC;
use crate::error::ScannerError;
use crate::IGNORED_CHECKSUM;

verus! {

/// The value that a CRC register of at most 16 bits holds after it was set up
/// with the given polynomial, width, initial value, final xor value and
/// reflection and has digested `data`.
pub uninterp spec fn crc_u16_value(
    poly: u16,
    bits: u8,
    initial: u16,
    final_xor: u16,
    reflect: bool,
    data: Seq<u8>,
) -> u64;

/// Runs `crc_any::CRC::create_crc_u16`, feeds `data` to the new register with
/// `CRC::digest` and reads it with `CRC::get_crc`.
///
/// Trusted: the outcome depends on the six arguments alone, and since the
/// register is at most sixteen bits wide the value read from it fits in
/// sixteen bits. Widths outside `1..=16` are left out because the constructor
/// rejects them.
#[verifier::external_body]
fn crc_u16_digest(
    poly: u16,
    bits: u8,
    initial: u16,
    final_xor: u16,
    reflect: bool,
    data: &[u8],
) -> (crc: u64)
    requires
        1 <= bits <= 16,
    ensures
        crc == crc_u16_value(poly, bits, initial, final_xor, reflect, data@),
        crc <= u16::MAX,
{
    let mut register = CRC::create_crc_u16(poly, bits, initial, final_xor, reflect);
    register.digest(data);
    register.get_crc()
}

/// Generator polynomial of the frame checksum: x^16 + x^12 + x^5 + 1.
pub const CRC_POLYNOMIAL: u16 = 0x1021;

/// Width of the frame checksum in bits.
pub const CRC_BITS: u8 = 16;

/// The checksum of `data`: the CRC of sixteen bits with polynomial 0x1021,
/// initial register value 0, no final xor and no reflection.
pub open spec fn checksum(data: Seq<u8>) -> u16 {
    crc_u16_value(CRC_POLYNOMIAL, CRC_BITS, 0, 0, false, data) as u16
}

/// What comparing the checksum that a frame carries with the one calculated
/// over it comes to. A carried checksum of `IGNORED_CHECKSUM` passes whatever
/// was calculated.
pub open spec fn checksum_verdict(expected: u16, calculated: u16) -> Result<(), ScannerError> {
    if expected == IGNORED_CHECKSUM || expected == calculated {
        Ok(())
    } else {
        Err(ScannerError::ChecksumMismatch { expected, calculated })
    }
}

/// Calculates the checksum of a command or reply packet.
///
/// The result is a function of the bytes alone: equal data has equal checksums.
pub fn calculate_crc(data: &[u8]) -> (crc: u16)
    ensures
        crc == checksum(data@),
{
    let value = crc_u16_digest(CRC_POLYNOMIAL, CRC_BITS, 0, 0, false, data);
    value as u16
}

/// Compares the checksum that a frame carries with the one calculated over it.
pub fn compare_crc(expected_checksum: u16, calculated_checksum: u16) -> (verdict: Result<
    (),
    ScannerError,
>)
    ensures
        verdict == checksum_verdict(expected_checksum, calculated_checksum),
{
    if expected_checksum == IGNORED_CHECKSUM || expected_checksum == calculated_checksum {
        Ok(())
    } else {
        Err(
            ScannerError::ChecksumMismatch {
                expected: expected_checksum,
                calculated: calculated_checksum,
            },
        )
    }
}

/// Checks `data` against the checksum that came with it.
///
/// An expected checksum of `IGNORED_CHECKSUM` succeeds at once, without the
/// checksum of `data` being calculated.
pub fn verify_crc(data: &[u8], expected_checksum: u16) -> (verdict: Result<(), ScannerError>)
    ensures
        verdict == checksum_verdict(expected_checksum, checksum(data@)),
        expected_checksum == IGNORED_CHECKSUM ==> verdict is Ok,
        verdict is Ok <==> expected_checksum == IGNORED_CHECKSUM || expected_checksum == checksum(
            data@,
        ),
{
    if expected_checksum == IGNORED_CHECKSUM {
        return Ok(());
    }
    compare_crc(expected_checksum, calculate_crc(data))
}

} // verus!
