//! Frame codec: the byte layout of command frames and reply frames.
//!
//! A command frame is
//! `[0x7E, 0x00, function type, length, address high, address low,
//! (reply length)?, (payload)?, checksum high, checksum low]`,
//! a reply frame is
//! `[0x02, 0x00, status, length, payload.., checksum high, checksum low]`.
//! In both, the checksum covers everything between the first two bytes and
//! the checksum itself, and a length byte of zero stands for 256.

use vstd::prelude::*;
use vstd::slice::slice_subrange;
use crate::crc::{calculate_crc, checksum, checksum_verdict, compare_crc, verify_crc};
use crate::error::ScannerError;

verus! {

/// First byte of every command frame.
pub const START_MARKER: u8 = 0x7e;

/// Second byte of every command frame and of every reply frame.
pub const RESERVED: u8 = 0x00;

/// First byte of every reply frame.
pub const REPLY_HEADER: u8 = 0x02;

/// Status byte of a reply that reports success.
pub const STATUS_SUCCESS: u8 = 0x00;

/// Function type of a command that reads device registers.
pub const FUNCTION_READ: u8 = 0x07;

/// Function type of a command that writes device registers.
pub const FUNCTION_WRITE: u8 = 0x08;

/// Function type of the command that commits the settings to flash.
pub const FUNCTION_SAVE: u8 = 0x09;

/// Number of bytes that frame the payload of a reply: header, reserved byte,
/// status, length and the two bytes of the checksum.
pub const REPLY_ENVELOPE: usize = 6;

/// The largest payload that a length byte can announce.
pub const MAX_PAYLOAD: usize = 256;

/// The two bytes of `value`, most significant first.
pub open spec fn big_endian(value: u16) -> Seq<u8> {
    seq![(value / 256) as u8, (value % 256) as u8]
}

/// The value whose most significant byte is `high` and whose least
/// significant byte is `low`.
pub open spec fn from_big_endian(high: u8, low: u8) -> u16 {
    (high * 256 + low) as u16
}

/// The length byte that announces `count` bytes: 256 is written as zero.
pub open spec fn length_byte(count: int) -> u8
    recommends
        0 <= count <= MAX_PAYLOAD,
{
    if count == MAX_PAYLOAD {
        0u8
    } else {
        count as u8
    }
}

/// The number of bytes that a length byte in a reply announces: zero is read
/// as 256.
pub open spec fn announced_length(byte: u8) -> int {
    if byte == 0 {
        MAX_PAYLOAD as int
    } else {
        byte as int
    }
}

/// The part of a command frame that its checksum covers: function type,
/// length, address, then the length byte of the reply and the payload where
/// there are any.
pub open spec fn command_body(
    function_type: u8,
    length: u8,
    address: u16,
    reply_length: Option<u8>,
    payload: Option<Seq<u8>>,
) -> Seq<u8> {
    seq![function_type, length] + big_endian(address) + (match reply_length {
        Some(byte) => seq![byte],
        None => Seq::empty(),
    }) + (match payload {
        Some(bytes) => bytes,
        None => Seq::empty(),
    })
}

/// A command frame around `body` that carries `crc` as its checksum.
pub open spec fn sealed(body: Seq<u8>, crc: u16) -> Seq<u8> {
    seq![START_MARKER, RESERVED] + body + big_endian(crc)
}

/// The complete command frame for the given fields.
pub open spec fn command_frame(
    function_type: u8,
    length: u8,
    address: u16,
    reply_length: Option<u8>,
    payload: Option<Seq<u8>>,
) -> Seq<u8> {
    let body = command_body(function_type, length, address, reply_length, payload);
    sealed(body, checksum(body))
}

/// The frame that asks for `count` bytes starting at `address`.
pub open spec fn read_frame(address: u16, count: usize) -> Seq<u8>
    recommends
        count <= MAX_PAYLOAD,
{
    command_frame(FUNCTION_READ, 1, address, Some(length_byte(count as int)), None)
}

/// The frame that writes `data` starting at `address`.
pub open spec fn write_frame(address: u16, data: Seq<u8>) -> Seq<u8>
    recommends
        data.len() <= u8::MAX,
{
    command_frame(FUNCTION_WRITE, data.len() as u8, address, None, Some(data))
}

/// The bytes of a reply frame that its checksum covers: everything but the
/// first two and the last two.
pub open spec fn reply_body(buffer: Seq<u8>) -> Seq<u8>
    recommends
        buffer.len() >= REPLY_ENVELOPE,
{
    buffer.subrange(2, buffer.len() - 2)
}

/// The checksum that a reply frame carries in its last two bytes.
pub open spec fn carried_checksum(buffer: Seq<u8>) -> u16
    recommends
        buffer.len() >= REPLY_ENVELOPE,
{
    from_big_endian(buffer[buffer.len() - 2], buffer[buffer.len() - 1])
}

/// What the framing of a received reply comes to: the checksum that the
/// reply carries, or the first of these failures that applies.
///
/// 1. fewer than six bytes: a short reply;
/// 2. the first two bytes are not `0x02, 0x00`: an invalid header;
/// 3. a non-zero status byte: the device's error, with that status.
pub open spec fn envelope_result(buffer: Seq<u8>) -> Result<u16, ScannerError> {
    if buffer.len() < REPLY_ENVELOPE {
        Err(ScannerError::ShortReply { received: buffer.len() as usize })
    } else if buffer[0] != REPLY_HEADER || buffer[1] != RESERVED {
        Err(ScannerError::InvalidHeader)
    } else if buffer[2] != STATUS_SUCCESS {
        Err(ScannerError::DeviceStatus { code: buffer[2] })
    } else {
        Ok(carried_checksum(buffer))
    }
}

/// The payload of a received reply of at least six bytes: as many bytes as
/// its length byte announces, from the fifth byte on; a payload overrun where
/// that is more than the reply holds beyond its six framing bytes.
pub open spec fn payload_result(buffer: Seq<u8>) -> Result<Seq<u8>, ScannerError>
    recommends
        buffer.len() >= REPLY_ENVELOPE,
{
    let declared = announced_length(buffer[3]);
    let capacity = buffer.len() - REPLY_ENVELOPE;
    if declared > capacity {
        Err(ScannerError::PayloadOverrun { declared: declared as usize, capacity: capacity as usize })
    } else {
        Ok(buffer.subrange(4, 4 + declared))
    }
}

/// What a received reply comes to, given the checksum `calculated` over its
/// body: the payload, or the first failure that applies, of the framing, then
/// of the checksum, which must be `calculated` or the ignored one, then of
/// the payload.
pub open spec fn reply_result(buffer: Seq<u8>, calculated: u16) -> Result<Seq<u8>, ScannerError> {
    match envelope_result(buffer) {
        Err(error) => Err(error),
        Ok(carried) => match checksum_verdict(carried, calculated) {
            Err(error) => Err(error),
            Ok(_) => payload_result(buffer),
        },
    }
}

/// What a received reply comes to: `reply_result` with the checksum of the
/// reply's own body.
pub open spec fn parsed_reply(buffer: Seq<u8>) -> Result<Seq<u8>, ScannerError> {
    reply_result(buffer, checksum(reply_body(buffer)))
}

/// A reply frame as the device builds it for a successful command: header,
/// status zero, the length byte for `payload`, the payload and the checksum of
/// status, length and payload.
pub open spec fn reply_frame(payload: Seq<u8>) -> Seq<u8>
    recommends
        1 <= payload.len() <= MAX_PAYLOAD,
{
    reply_carrying(payload, checksum(successful_body(payload)))
}

/// The payload of a decoded reply as a sequence.
pub open spec fn payload_view(reply: Result<Vec<u8>, ScannerError>) -> Result<
    Seq<u8>,
    ScannerError,
> {
    match reply {
        Ok(payload) => Ok(payload@),
        Err(error) => Err(error),
    }
}

/// The payload handed to the frame builder as a sequence.
pub open spec fn data_view(write_data: Option<&[u8]>) -> Option<Seq<u8>> {
    match write_data {
        Some(data) => Some(data@),
        None => None,
    }
}

/// Splits a 16-bit value into its two bytes, most significant first.
pub fn to_big_endian(value: u16) -> (bytes: (u8, u8))
    ensures
        seq![bytes.0, bytes.1] == big_endian(value),
        from_big_endian(bytes.0, bytes.1) == value,
{
    ((value / 256) as u8, (value % 256) as u8)
}

/// Encodes the number of bytes asked of the device as a length byte, with 256
/// written as zero. Counts above 256 cannot be asked for.
pub fn encode_length(count: usize) -> (byte: Result<u8, ScannerError>)
    ensures
        count <= MAX_PAYLOAD ==> byte == Ok::<u8, ScannerError>(length_byte(count as int)),
        count > MAX_PAYLOAD ==> byte == Err::<u8, ScannerError>(
            ScannerError::LengthOutOfRange { length: count },
        ),
{
    if count == MAX_PAYLOAD {
        Ok(0)
    } else if count < MAX_PAYLOAD {
        Ok(count as u8)
    } else {
        Err(ScannerError::LengthOutOfRange { length: count })
    }
}

/// Decodes the length byte of a reply, with zero read as 256.
pub fn decode_length(byte: u8) -> (count: usize)
    ensures
        count == announced_length(byte),
        1 <= count <= MAX_PAYLOAD,
{
    if byte == 0 {
        MAX_PAYLOAD
    } else {
        byte as usize
    }
}

/// Lays out the part of a command frame that the checksum covers.
pub fn build_body(
    function_type: u8,
    length: u8,
    address: u16,
    reply_length: Option<u8>,
    write_data: Option<&[u8]>,
) -> (body: Vec<u8>)
    ensures
        body@ == command_body(function_type, length, address, reply_length, data_view(write_data)),
{
    let mut body: Vec<u8> = Vec::new();
    body.push(function_type);
    body.push(length);
    let address_bytes = to_big_endian(address);
    body.push(address_bytes.0);
    body.push(address_bytes.1);
    if let Some(byte) = reply_length {
        body.push(byte);
    }
    if let Some(data) = write_data {
        body.extend_from_slice(data);
    }
    body
}

/// Puts the start marker in front of `body` and the checksum `crc` behind it.
pub fn seal_frame(body: &[u8], crc: u16) -> (frame: Vec<u8>)
    ensures
        frame@ == sealed(body@, crc),
{
    let mut frame: Vec<u8> = Vec::new();
    frame.push(START_MARKER);
    frame.push(RESERVED);
    frame.extend_from_slice(body);
    let crc_bytes = to_big_endian(crc);
    frame.push(crc_bytes.0);
    frame.push(crc_bytes.1);
    frame
}

/// Builds the command frame for the given fields: the body, sealed with its
/// own checksum.
pub fn build_frame(
    function_type: u8,
    length: u8,
    address: u16,
    reply_length: Option<u8>,
    write_data: Option<&[u8]>,
) -> (frame: Vec<u8>)
    ensures
        frame@ == command_frame(
            function_type,
            length,
            address,
            reply_length,
            data_view(write_data),
        ),
{
    let body = build_body(function_type, length, address, reply_length, write_data);
    let crc = calculate_crc(body.as_slice());
    seal_frame(body.as_slice(), crc)
}

/// Builds the command frame for the given fields, of which
/// `return_data_length` is the number of bytes that the reply is to carry.
///
/// Fails only where a reply of more than 256 bytes is asked for.
pub fn encode_command(
    function_type: u8,
    length: u8,
    address: u16,
    return_data_length: Option<usize>,
    write_data: Option<&[u8]>,
) -> (frame: Result<Vec<u8>, ScannerError>)
    ensures
        match return_data_length {
            Some(count) if count > MAX_PAYLOAD => frame == Err::<Vec<u8>, ScannerError>(
                ScannerError::LengthOutOfRange { length: count },
            ),
            Some(count) => frame is Ok && frame->Ok_0@ == command_frame(
                function_type,
                length,
                address,
                Some(length_byte(count as int)),
                data_view(write_data),
            ),
            None => frame is Ok && frame->Ok_0@ == command_frame(
                function_type,
                length,
                address,
                None,
                data_view(write_data),
            ),
        },
{
    let reply_length = match return_data_length {
        Some(count) => match encode_length(count) {
            Ok(byte) => Some(byte),
            Err(error) => {
                return Err(error);
            },
        },
        None => None,
    };
    Ok(build_frame(function_type, length, address, reply_length, write_data))
}

/// Builds the frame of a read command: function type 0x07, length 1, and the
/// number of bytes that the reply is to carry.
///
/// Fails only where more than 256 bytes are asked for.
pub fn read_command(address: u16, count: usize) -> (frame: Result<Vec<u8>, ScannerError>)
    ensures
        count <= MAX_PAYLOAD ==> frame is Ok && frame->Ok_0@ == read_frame(address, count),
        count > MAX_PAYLOAD ==> frame == Err::<Vec<u8>, ScannerError>(
            ScannerError::LengthOutOfRange { length: count },
        ),
{
    encode_command(FUNCTION_READ, 1, address, Some(count), None)
}

/// Builds the frame of a write command: function type 0x08, the length of the
/// data, and the data.
///
/// Fails only where the data is longer than a length byte can tell.
pub fn write_command(address: u16, data: &[u8]) -> (frame: Result<Vec<u8>, ScannerError>)
    ensures
        data.len() <= u8::MAX ==> frame is Ok && frame->Ok_0@ == write_frame(address, data@),
        data.len() > u8::MAX ==> frame == Err::<Vec<u8>, ScannerError>(
            ScannerError::LengthOutOfRange { length: data.len() },
        ),
{
    if data.len() > u8::MAX as usize {
        return Err(ScannerError::LengthOutOfRange { length: data.len() });
    }
    encode_command(FUNCTION_WRITE, data.len() as u8, address, None, Some(data))
}

/// Validates the framing of a received reply and reads the checksum that it
/// carries.
fn open_envelope(buffer: &[u8]) -> (carried: Result<u16, ScannerError>)
    ensures
        carried == envelope_result(buffer@),
{
    let received = buffer.len();
    if received < REPLY_ENVELOPE {
        return Err(ScannerError::ShortReply { received });
    }
    if buffer[0] != REPLY_HEADER || buffer[1] != RESERVED {
        return Err(ScannerError::InvalidHeader);
    }
    if buffer[2] != STATUS_SUCCESS {
        return Err(ScannerError::DeviceStatus { code: buffer[2] });
    }
    Ok(buffer[received - 2] as u16 * 256 + buffer[received - 1] as u16)
}

/// Extracts the payload that a received reply announces.
fn extract_payload(buffer: &[u8]) -> (payload: Result<Vec<u8>, ScannerError>)
    requires
        buffer.len() >= REPLY_ENVELOPE,
    ensures
        payload_view(payload) == payload_result(buffer@),
{
    let declared = decode_length(buffer[3]);
    let capacity = buffer.len() - REPLY_ENVELOPE;
    if declared > capacity {
        return Err(ScannerError::PayloadOverrun { declared, capacity });
    }
    let mut payload: Vec<u8> = Vec::new();
    payload.extend_from_slice(slice_subrange(buffer, 4, 4 + declared));
    assert(payload@ == buffer@.subrange(4, 4 + declared as int));
    Ok(payload)
}

/// Validates a received reply against the checksum `calculated` over its body
/// and extracts its payload.
pub fn decode_reply(buffer: &[u8], calculated: u16) -> (reply: Result<Vec<u8>, ScannerError>)
    ensures
        payload_view(reply) == reply_result(buffer@, calculated),
{
    match open_envelope(buffer) {
        Err(error) => Err(error),
        Ok(carried) => match compare_crc(carried, calculated) {
            Err(error) => Err(error),
            Ok(()) => extract_payload(buffer),
        },
    }
}

/// Validates a received reply and extracts its payload.
///
/// The reply is rejected, in this order, when it is shorter than six bytes,
/// when its header is wrong, when its status is not zero, when its checksum
/// does not match (unless it carries the ignored checksum) and when it
/// announces more payload than it holds.
pub fn parse_reply(buffer: &[u8]) -> (reply: Result<Vec<u8>, ScannerError>)
    ensures
        payload_view(reply) == parsed_reply(buffer@),
        buffer.len() < REPLY_ENVELOPE ==> reply == Err::<Vec<u8>, ScannerError>(
            ScannerError::ShortReply { received: buffer.len() },
        ),
        buffer.len() >= REPLY_ENVELOPE && (buffer[0] != REPLY_HEADER || buffer[1] != RESERVED)
            ==> reply == Err::<Vec<u8>, ScannerError>(ScannerError::InvalidHeader),
        buffer.len() >= REPLY_ENVELOPE && buffer[0] == REPLY_HEADER && buffer[1] == RESERVED
            && buffer[2] != STATUS_SUCCESS ==> reply == Err::<Vec<u8>, ScannerError>(
            ScannerError::DeviceStatus { code: buffer[2] },
        ),
        reply is Ok ==> 1 <= reply->Ok_0.len() <= MAX_PAYLOAD && reply->Ok_0.len()
            + REPLY_ENVELOPE <= buffer.len(),
{
    match open_envelope(buffer) {
        Err(error) => Err(error),
        Ok(carried) => {
            let body = slice_subrange(buffer, 2, buffer.len() - 2);
            match verify_crc(body, carried) {
                Err(error) => Err(error),
                Ok(()) => extract_payload(buffer),
            }
        },
    }
}

/// The length byte and the length it announces are inverse to each other:
/// 256 goes to zero and zero comes back as 256.
pub proof fn lemma_length_byte_round_trip(count: int, byte: u8)
    ensures
        1 <= count <= MAX_PAYLOAD ==> announced_length(length_byte(count)) == count,
        length_byte(announced_length(byte)) == byte,
{
}

/// A checksum written as two bytes and read back is the same checksum.
pub proof fn lemma_big_endian_round_trip(value: u16)
    ensures
        big_endian(value).len() == 2,
        from_big_endian(big_endian(value)[0], big_endian(value)[1]) == value,
{
}

/// Round trip: a reply frame built around any payload of 1 to 256 bytes, with
/// the right header, status zero and the right checksum, parses to exactly
/// that payload. A payload of 256 bytes travels with a length byte of zero.
pub proof fn lemma_reply_round_trip(payload: Seq<u8>)
    requires
        1 <= payload.len() <= MAX_PAYLOAD,
    ensures
        parsed_reply(reply_frame(payload)) == Ok::<Seq<u8>, ScannerError>(payload),
        reply_frame(payload).len() == payload.len() + REPLY_ENVELOPE,
        payload.len() == MAX_PAYLOAD ==> reply_frame(payload)[3] == 0,
{
    lemma_reply_checksum_decides(payload, checksum(successful_body(payload)));
}

/// Status byte, length byte and payload of a successful reply.
pub open spec fn successful_body(payload: Seq<u8>) -> Seq<u8> {
    seq![STATUS_SUCCESS, length_byte(payload.len() as int)] + payload
}

/// A reply frame around `payload` that carries `carried` as its checksum,
/// right or wrong.
pub open spec fn reply_carrying(payload: Seq<u8>, carried: u16) -> Seq<u8> {
    seq![REPLY_HEADER, RESERVED] + successful_body(payload) + big_endian(carried)
}

/// An otherwise well-formed reply stands or falls with the checksum it
/// carries: with the checksum of its body, or with the ignored checksum, it
/// parses to its payload; with any other it is rejected as a checksum
/// mismatch that names both checksums.
pub proof fn lemma_reply_checksum_decides(payload: Seq<u8>, carried: u16)
    requires
        1 <= payload.len() <= MAX_PAYLOAD,
    ensures
        carried == checksum(successful_body(payload)) || carried == crate::IGNORED_CHECKSUM
            ==> parsed_reply(reply_carrying(payload, carried)) == Ok::<Seq<u8>, ScannerError>(
            payload,
        ),
        carried != checksum(successful_body(payload)) && carried != crate::IGNORED_CHECKSUM
            ==> parsed_reply(reply_carrying(payload, carried)) == Err::<Seq<u8>, ScannerError>(
            ScannerError::ChecksumMismatch {
                expected: carried,
                calculated: checksum(successful_body(payload)),
            },
        ),
{
    let frame = reply_carrying(payload, carried);
    assert(reply_body(frame) == successful_body(payload));
    assert(frame.subrange(4, 4 + payload.len() as int) == payload);
}

/// The checksum `crc` with bit `bit` flipped.
pub open spec fn with_bit_flipped(crc: u16, bit: u16) -> u16 {
    crc ^ (1u16 << bit)
}

/// A reply whose checksum was altered in one bit is rejected as a checksum
/// mismatch, unless the altered checksum is the ignored one: a reply that
/// carries the ignored checksum is accepted unverified.
pub proof fn lemma_altered_checksum_rejected(payload: Seq<u8>, bit: u16)
    requires
        1 <= payload.len() <= MAX_PAYLOAD,
        bit < 16,
    ensures
        ({
            let right = checksum(successful_body(payload));
            let altered = with_bit_flipped(right, bit);
            &&& altered != right
            &&& altered != crate::IGNORED_CHECKSUM ==> parsed_reply(
                reply_carrying(payload, altered),
            ) == Err::<Seq<u8>, ScannerError>(
                ScannerError::ChecksumMismatch { expected: altered, calculated: right },
            )
            &&& altered == crate::IGNORED_CHECKSUM ==> parsed_reply(
                reply_carrying(payload, altered),
            ) == Ok::<Seq<u8>, ScannerError>(payload)
        }),
{
    let right = checksum(successful_body(payload));
    assert(right ^ (1u16 << bit) != right) by (bit_vector)
        requires
            bit < 16,
    ;
    lemma_reply_checksum_decides(payload, with_bit_flipped(right, bit));
}

} // verus!
