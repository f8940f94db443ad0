//! The session with a scanner: every call on the device, step by step.
//!
//! A `BarcodeScanner` performs no input or output. Each call on it names the
//! first thing to do on the serial link, as an `Action`; the caller does it,
//! reports what happened as an `Event` to `BarcodeScanner::handle`, and gets
//! the next action, until the action is `Action::Finish` with the result of
//! the call. A failure of the link itself is the caller's to report to its
//! own caller; the next call on the scanner starts afresh.
//!
//! The link is half duplex and every call is a round trip of its own: nothing
//! is buffered from one call to the next.

use vstd::prelude::*;
use crate::error::ScannerError;
use crate::frame::{
    build_frame,
    command_frame,
    parse_reply,
    parsed_reply,
    payload_view,
    read_command,
    read_frame,
    write_command,
    write_frame,
    FUNCTION_READ,
    FUNCTION_SAVE,
    FUNCTION_WRITE,
    MAX_PAYLOAD,
    REPLY_ENVELOPE,
};
use crate::registers::{
    encode_mode,
    encode_scan_area,
    encode_setting_codes,
    encode_timeout,
    mode_value,
    scan_area_value,
    setting_codes_value,
    timeout_value,
    Symbology,
    ADDRESS_FACTORY_RESET,
    ADDRESS_HW_VERSION,
    ADDRESS_MODE,
    ADDRESS_RESULT_OPTIONS,
    ADDRESS_SCAN,
    ADDRESS_SCAN_AREA,
    ADDRESS_SCAN_TIMEOUT,
    ADDRESS_SETTING_CODES,
    ADDRESS_SW_DAY,
    ADDRESS_SW_MONTH,
    ADDRESS_SW_VERSION,
    ADDRESS_SW_YEAR,
    DEFAULT_SCAN_TIMEOUT,
    FACTORY_RESET,
    MAX_SCAN_TIMEOUT,
    RESULT_OPTIONS,
};
use crate::scan::{
    assembled,
    closed,
    decode_scan,
    decoded_scan,
    lines_view,
    payload_lines,
    END_OF_DATA,
    END_OF_LINE,
    NO_CODE,
};
use crate::version::{version_name, version_text, SoftwareDate};
use crate::{
    Barcode,
    BarcodeView,
    Barcodes,
    IlluminationMode,
    OperationMode,
    ScanArea,
    TargetLightMode,
};

verus! {

/// Speed of the serial line in bits per second. The line carries eight data
/// bits, no parity bit and one stop bit, without flow control.
pub const BAUD_RATE: u32 = 9600;

/// How long a single read on the link may wait before the caller looks at its
/// deadline again, in milliseconds.
pub const POLL_INTERVAL: u64 = 100;

/// Number of bytes of the reply to a command on a single register: six bytes
/// of framing around one byte of payload.
pub const REPLY_LENGTH: usize = 7;

/// What the reply that a call waits for is needed for.
#[derive(Clone, Copy, Debug, PartialEq, Eq, Structural)]
pub enum Plan {
    /// It acknowledges a write.
    Acknowledge,
    /// It acknowledges the write of a new scan timeout of `millis`.
    Timeout { millis: u64 },
    /// It carries a version register.
    Version,
    /// It carries the year of the build date.
    BuildYear,
    /// It carries the month of the build date, whose year is known.
    BuildMonth { year: u8 },
    /// It carries the day of the build date, whose year and month are known.
    BuildDay { year: u8, month: u8 },
    /// It carries the setting codes register, which is then written back.
    SettingCodes { enable: bool },
    /// It carries up to `count` bytes that the caller asked for.
    Data { count: usize },
}

/// Where a session stands.
#[derive(Clone, Copy, Debug, PartialEq, Eq, Structural)]
pub enum Stage {
    /// No call is under way.
    Idle,
    /// What is pending on the link from before the session is being dropped.
    Discarding,
    /// A command frame was handed out and is being written.
    Sending(Plan),
    /// A command frame was written and its reply is being read.
    Receiving(Plan),
    /// The byte that tells the type of a scanned barcode is being waited for.
    AwaitingCode,
    /// The data of a scanned barcode of type `code` is being read.
    InPayload { code: u8 },
}

/// What a finished call hands back.
#[derive(Debug, PartialEq, Eq)]
pub enum Reply {
    /// The device acknowledged what was written.
    Acknowledged,
    /// The bytes that were read from the device.
    Data(Vec<u8>),
    /// The name of a version of the device.
    Version(String),
    /// The day the firmware was built.
    BuildDate(SoftwareDate),
    /// The barcode that was scanned, if any.
    Scan(Option<Barcode>),
}

/// What a finished call hands back, as a mathematical value.
pub enum ReplyView {
    Acknowledged,
    Data(Seq<u8>),
    Version(Seq<char>),
    BuildDate(SoftwareDate),
    Scan(Option<BarcodeView>),
}

impl View for Reply {
    type V = ReplyView;

    open spec fn view(&self) -> ReplyView {
        match *self {
            Reply::Acknowledged => ReplyView::Acknowledged,
            Reply::Data(bytes) => ReplyView::Data(bytes@),
            Reply::Version(name) => ReplyView::Version(name@),
            Reply::BuildDate(date) => ReplyView::BuildDate(date),
            Reply::Scan(Some(barcode)) => ReplyView::Scan(Some(barcode@)),
            Reply::Scan(None) => ReplyView::Scan(None),
        }
    }
}

/// The kinds of reply that a call can end with.
#[derive(Clone, Copy, Debug, PartialEq, Eq, Structural)]
pub enum ReplyKind {
    Acknowledged,
    Data,
    Version,
    BuildDate,
    Scan,
}

impl ReplyView {
    /// The kind of the reply.
    pub open spec fn kind(self) -> ReplyKind {
        match self {
            ReplyView::Acknowledged => ReplyKind::Acknowledged,
            ReplyView::Data(_) => ReplyKind::Data,
            ReplyView::Version(_) => ReplyKind::Version,
            ReplyView::BuildDate(_) => ReplyKind::BuildDate,
            ReplyView::Scan(_) => ReplyKind::Scan,
        }
    }
}

impl Stage {
    /// The kind of reply that the call under way ends with, if it succeeds.
    pub open spec fn promises(self) -> Option<ReplyKind> {
        match self {
            Stage::Idle => None,
            Stage::Discarding => Some(ReplyKind::Acknowledged),
            Stage::Sending(plan) | Stage::Receiving(plan) => Some(
                match plan {
                    Plan::Acknowledge | Plan::Timeout { .. } | Plan::SettingCodes { .. }
                        => ReplyKind::Acknowledged,
                    Plan::Data { .. } => ReplyKind::Data,
                    Plan::Version => ReplyKind::Version,
                    Plan::BuildYear | Plan::BuildMonth { .. } | Plan::BuildDay { .. }
                        => ReplyKind::BuildDate,
                },
            ),
            Stage::AwaitingCode | Stage::InPayload { .. } => Some(ReplyKind::Scan),
        }
    }
}

/// What the caller is to do on the link next.
#[derive(Debug, PartialEq, Eq)]
pub enum Action {
    /// Drop what is pending unread on the link, then report
    /// `Event::Discarded`.
    Discard,
    /// Write all of these bytes, then report `Event::Written`.
    Write(Vec<u8>),
    /// Read exactly this many bytes, however long it takes, and report them
    /// as `Event::Data`.
    Read(usize),
    /// Read exactly `count` bytes in one poll of the link and report them as
    /// `Event::Data`; where the poll times out, report `Event::Quiet` with
    /// the time since the first action of the call.
    Poll { count: usize },
    /// Read one byte, however long it takes, and report it as `Event::Data`;
    /// report empty data where the link delivers nothing more.
    ReadByte,
    /// Nothing: the call is over, with this result.
    Finish(Result<Reply, ScannerError>),
}

/// What the caller is to do next, as a mathematical value.
pub enum ActionView {
    Discard,
    Write(Seq<u8>),
    Read(usize),
    Poll { count: usize },
    ReadByte,
    Finish(Result<ReplyView, ScannerError>),
}

/// The result of a call as a mathematical value.
pub open spec fn result_view(result: Result<Reply, ScannerError>) -> Result<
    ReplyView,
    ScannerError,
> {
    match result {
        Ok(reply) => Ok(reply@),
        Err(error) => Err(error),
    }
}

impl View for Action {
    type V = ActionView;

    open spec fn view(&self) -> ActionView {
        match *self {
            Action::Discard => ActionView::Discard,
            Action::Write(bytes) => ActionView::Write(bytes@),
            Action::Read(count) => ActionView::Read(count),
            Action::Poll { count } => ActionView::Poll { count },
            Action::ReadByte => ActionView::ReadByte,
            Action::Finish(result) => ActionView::Finish(result_view(result)),
        }
    }
}

/// What happened on the link.
#[derive(Debug, PartialEq, Eq)]
pub enum Event {
    /// What was pending on the link is gone.
    Discarded,
    /// The bytes of the last `Action::Write` went out in full.
    Written,
    /// These bytes arrived in answer to the last read.
    Data(Vec<u8>),
    /// The last `Action::Poll` timed out, `elapsed` milliseconds after the
    /// first action of the call.
    Quiet { elapsed: u64 },
}

/// What happened on the link, as a mathematical value.
pub enum EventView {
    Discarded,
    Written,
    Data(Seq<u8>),
    Quiet { elapsed: u64 },
}

impl View for Event {
    type V = EventView;

    open spec fn view(&self) -> EventView {
        match *self {
            Event::Discarded => EventView::Discarded,
            Event::Written => EventView::Written,
            Event::Data(bytes) => EventView::Data(bytes@),
            Event::Quiet { elapsed } => EventView::Quiet { elapsed },
        }
    }
}

/// The reply that the outcome of a scan makes.
pub open spec fn scan_reply(scan: Result<Option<BarcodeView>, ScannerError>) -> Result<
    ReplyView,
    ScannerError,
> {
    match scan {
        Ok(barcode) => Ok(ReplyView::Scan(barcode)),
        Err(error) => Err(error),
    }
}

/// The reply that the three registers of the build date make.
pub open spec fn build_date_reply(year: u8, month: u8, day: u8) -> Result<
    ReplyView,
    ScannerError,
> {
    match SoftwareDate::reported(year, month, day) {
        Ok(date) => Ok(ReplyView::BuildDate(date)),
        Err(error) => Err(error),
    }
}

/// The number of bytes of the reply that is needed for `plan`: six bytes of
/// framing around the bytes that were asked for, or around the one byte of
/// an acknowledgement or of a register.
pub open spec fn reply_length(plan: Plan) -> usize {
    match plan {
        Plan::Data { count } => (count + REPLY_ENVELOPE) as usize,
        _ => REPLY_LENGTH,
    }
}

/// The frame that commits the settings to flash.
pub open spec fn save_frame() -> Seq<u8> {
    command_frame(FUNCTION_SAVE, 1, 0x0000, None, Some(seq![0x00u8]))
}

/// A session as a mathematical value.
pub struct ScannerView {
    /// How long a scan may take, in milliseconds.
    pub scan_timeout: u64,
    /// Where the session stands.
    pub stage: Stage,
    /// The register writes that follow the one under way, in order.
    pub queue: Seq<(u16, u8)>,
    /// The lines collected of the scan data that is being read.
    pub lines: Seq<Seq<u8>>,
    /// The line in progress of the scan data that is being read.
    pub line: Seq<u8>,
}

impl ScannerView {
    /// A session on which no call was made yet.
    pub open spec fn fresh() -> ScannerView {
        ScannerView {
            scan_timeout: DEFAULT_SCAN_TIMEOUT,
            stage: Stage::Idle,
            queue: Seq::empty(),
            lines: Seq::empty(),
            line: Seq::empty(),
        }
    }

    /// A session that starts: what is pending on the link is to be dropped
    /// first.
    pub open spec fn opening() -> (ScannerView, ActionView) {
        (
            ScannerView {
                scan_timeout: DEFAULT_SCAN_TIMEOUT,
                stage: Stage::Discarding,
                queue: Seq::empty(),
                lines: Seq::empty(),
                line: Seq::empty(),
            },
            ActionView::Discard,
        )
    }

    /// `count` bytes starting at `address` are to be read, unless that is
    /// more than a reply can carry.
    pub open spec fn reading_data(self, address: u16, count: usize) -> (ScannerView, ActionView) {
        if count > MAX_PAYLOAD {
            self.finished(Err(ScannerError::LengthOutOfRange { length: count }))
        } else {
            self.sending(read_frame(address, count), Plan::Data { count }, Seq::empty())
        }
    }

    /// `data` is to be written starting at `address`, unless it is longer
    /// than a command can carry.
    pub open spec fn writing_data(self, address: u16, data: Seq<u8>) -> (ScannerView, ActionView) {
        if data.len() > u8::MAX {
            self.finished(Err(ScannerError::LengthOutOfRange { length: data.len() as usize }))
        } else {
            self.sending(write_frame(address, data), Plan::Acknowledge, Seq::empty())
        }
    }

    /// The session with no call under way: only the scan timeout remains.
    pub open spec fn at_rest(self) -> ScannerView {
        ScannerView {
            scan_timeout: self.scan_timeout,
            stage: Stage::Idle,
            queue: Seq::empty(),
            lines: Seq::empty(),
            line: Seq::empty(),
        }
    }

    /// The session with a scan timeout of `millis`.
    pub open spec fn with_timeout(self, millis: u64) -> ScannerView {
        ScannerView {
            scan_timeout: millis,
            stage: self.stage,
            queue: self.queue,
            lines: self.lines,
            line: self.line,
        }
    }

    /// The call is over with `result`.
    pub open spec fn finished(self, result: Result<ReplyView, ScannerError>) -> (
        ScannerView,
        ActionView,
    ) {
        (self.at_rest(), ActionView::Finish(result))
    }

    /// `frame` is to be written; its reply is needed for `plan`, and the
    /// writes of `queue` follow.
    pub open spec fn sending(self, frame: Seq<u8>, plan: Plan, queue: Seq<(u16, u8)>) -> (
        ScannerView,
        ActionView,
    ) {
        (
            ScannerView {
                scan_timeout: self.scan_timeout,
                stage: Stage::Sending(plan),
                queue,
                lines: Seq::empty(),
                line: Seq::empty(),
            },
            ActionView::Write(frame),
        )
    }

    /// The register writes of `writes` are to be made in order, each
    /// acknowledged before the next; with none left the call is over.
    pub open spec fn writing(self, writes: Seq<(u16, u8)>) -> (ScannerView, ActionView) {
        if writes.len() == 0 {
            self.finished(Ok(ReplyView::Acknowledged))
        } else {
            self.sending(
                write_frame(writes[0].0, seq![writes[0].1]),
                Plan::Acknowledge,
                writes.skip(1),
            )
        }
    }

    /// The register at `address` is to be read for `plan`.
    pub open spec fn reading(self, address: u16, plan: Plan) -> (ScannerView, ActionView) {
        self.sending(read_frame(address, 1), plan, Seq::empty())
    }

    /// A new scan timeout is to be written, unless it is out of range.
    pub open spec fn setting_timeout(self, millis: u64) -> (ScannerView, ActionView) {
        match timeout_value(millis) {
            Ok(value) => self.sending(
                write_frame(ADDRESS_SCAN_TIMEOUT, seq![value]),
                Plan::Timeout { millis },
                Seq::empty(),
            ),
            Err(error) => self.finished(Err(error)),
        }
    }

    /// The byte that tells the type of a scanned barcode is to be waited for,
    /// poll by poll.
    pub open spec fn awaiting_scan(self) -> (ScannerView, ActionView) {
        (
            ScannerView {
                scan_timeout: self.scan_timeout,
                stage: Stage::AwaitingCode,
                queue: Seq::empty(),
                lines: Seq::empty(),
                line: Seq::empty(),
            },
            ActionView::Poll { count: 1 },
        )
    }

    /// The register that was read for `plan` holds `value`: a version is
    /// named, the parts of the build date are read one after the other and
    /// made a date, the setting codes register is written back changed.
    pub open spec fn after_value(self, plan: Plan, value: u8) -> (ScannerView, ActionView) {
        match plan {
            Plan::Version => self.finished(Ok(ReplyView::Version(version_text(value)))),
            Plan::BuildYear => self.reading(ADDRESS_SW_MONTH, Plan::BuildMonth { year: value }),
            Plan::BuildMonth { year } => self.reading(
                ADDRESS_SW_DAY,
                Plan::BuildDay { year, month: value },
            ),
            Plan::BuildDay { year, month } => self.finished(build_date_reply(year, month, value)),
            Plan::SettingCodes { enable } => self.writing(
                seq![(ADDRESS_SETTING_CODES, setting_codes_value(value, enable))],
            ),
            Plan::Acknowledge | Plan::Timeout { .. } | Plan::Data { .. } => self.finished(
                Err(ScannerError::UnexpectedEvent),
            ),
        }
    }

    /// The reply that was being read has been parsed.
    ///
    /// A reply that failed to parse ends the call with that failure. The
    /// payload of an acknowledgement is not looked at: the next write of the
    /// queue follows, and after the last the call is over; the acknowledgement
    /// of a new scan timeout makes it the session's. Bytes that were asked
    /// for are handed over as many as came, which must not be more than were
    /// asked for. A register that was read must have come as exactly one
    /// byte.
    pub open spec fn after_reply(self, reply: Result<Seq<u8>, ScannerError>) -> (
        ScannerView,
        ActionView,
    ) {
        match self.stage {
            Stage::Receiving(plan) => match reply {
                Err(error) => self.finished(Err(error)),
                Ok(payload) => match plan {
                    Plan::Acknowledge => self.writing(self.queue),
                    Plan::Timeout { millis } => self.with_timeout(millis).finished(
                        Ok(ReplyView::Acknowledged),
                    ),
                    Plan::Data { count } => if payload.len() > count {
                        self.finished(
                            Err(
                                ScannerError::PayloadOverrun {
                                    declared: payload.len() as usize,
                                    capacity: count,
                                },
                            ),
                        )
                    } else {
                        self.finished(Ok(ReplyView::Data(payload)))
                    },
                    _ => if payload.len() != 1 {
                        self.finished(
                            Err(
                                ScannerError::IncorrectLength {
                                    asked: 1,
                                    received: payload.len() as usize,
                                },
                            ),
                        )
                    } else {
                        self.after_value(plan, payload[0])
                    },
                },
            },
            _ => self.finished(Err(ScannerError::UnexpectedEvent)),
        }
    }

    /// A poll for the byte that tells the type of a scanned barcode timed
    /// out, `elapsed` milliseconds into the call: while that is less than a
    /// scan may take the link is polled again, then the call is over with no
    /// barcode. That nothing was scanned in time is no failure.
    pub open spec fn after_quiet(self, elapsed: u64) -> (ScannerView, ActionView) {
        if elapsed < self.scan_timeout {
            self.awaiting_scan()
        } else {
            self.finished(Ok(ReplyView::Scan(None)))
        }
    }

    /// The byte that tells the type of the scanned barcode has arrived. Zero
    /// means that nothing was scanned.
    pub open spec fn after_code(self, byte: u8) -> (ScannerView, ActionView) {
        if byte == NO_CODE {
            self.finished(Ok(ReplyView::Scan(None)))
        } else {
            (
                ScannerView {
                    scan_timeout: self.scan_timeout,
                    stage: Stage::InPayload { code: byte },
                    queue: Seq::empty(),
                    lines: Seq::empty(),
                    line: Seq::empty(),
                },
                ActionView::ReadByte,
            )
        }
    }

    /// A byte of the data of a scanned barcode of type `code` has arrived.
    ///
    /// A line feed closes the line in progress, a carriage return closes it
    /// and ends the data, which is then decoded; any other byte extends the
    /// line. A closed line joins the collected lines unless it is empty.
    pub open spec fn after_scan_byte(self, code: u8, byte: u8) -> (ScannerView, ActionView) {
        if byte == END_OF_DATA {
            self.finished(scan_reply(decoded_scan(code, closed(self.lines, self.line))))
        } else if byte == END_OF_LINE {
            (
                ScannerView {
                    scan_timeout: self.scan_timeout,
                    stage: self.stage,
                    queue: self.queue,
                    lines: closed(self.lines, self.line),
                    line: Seq::empty(),
                },
                ActionView::ReadByte,
            )
        } else {
            (
                ScannerView {
                    scan_timeout: self.scan_timeout,
                    stage: self.stage,
                    queue: self.queue,
                    lines: self.lines,
                    line: self.line.push(byte),
                },
                ActionView::ReadByte,
            )
        }
    }

    /// The step that the session takes once the frame under way is written
    /// and the reply to it has arrived and parsed to `payload`.
    pub open spec fn answered(self, payload: Seq<u8>) -> (ScannerView, ActionView) {
        self.after_event(EventView::Written).0.after_reply(Ok(payload))
    }

    /// The session after the bytes of `bytes` have arrived one at a time.
    pub open spec fn after_bytes(self, bytes: Seq<u8>) -> ScannerView
        decreases bytes.len(),
    {
        if bytes.len() == 0 {
            self
        } else {
            self.after_bytes(bytes.drop_last()).after_event(
                EventView::Data(seq![bytes.last()]),
            ).0
        }
    }

    /// Whether the scan timeout is one that the device can be told, and so is
    /// one that is on its way to the device, and whether the bytes asked of
    /// the device are no more than a reply can carry. The sessions that this
    /// library hands out are within these limits.
    pub open spec fn within_limits(self) -> bool {
        &&& 1 <= self.scan_timeout <= MAX_SCAN_TIMEOUT
        &&& match self.stage {
            Stage::Sending(Plan::Timeout { millis }) | Stage::Receiving(Plan::Timeout { millis })
                => 1 <= millis <= MAX_SCAN_TIMEOUT,
            Stage::Sending(Plan::Data { count }) | Stage::Receiving(Plan::Data { count }) => count
                <= MAX_PAYLOAD,
            _ => true,
        }
    }

    /// The step that the session takes on `event`: the session afterwards
    /// and what the caller is to do next.
    ///
    /// An event that the stage does not wait for ends the call with
    /// `ScannerError::UnexpectedEvent`.
    pub open spec fn after_event(self, event: EventView) -> (ScannerView, ActionView) {
        match (self.stage, event) {
            (Stage::Discarding, EventView::Discarded) => self.writing(
                seq![(ADDRESS_RESULT_OPTIONS, RESULT_OPTIONS)],
            ),
            (Stage::Sending(plan), EventView::Written) => (
                ScannerView {
                    scan_timeout: self.scan_timeout,
                    stage: Stage::Receiving(plan),
                    queue: self.queue,
                    lines: self.lines,
                    line: self.line,
                },
                ActionView::Read(reply_length(plan)),
            ),
            (Stage::Receiving(_), EventView::Data(buffer)) => self.after_reply(
                parsed_reply(buffer),
            ),
            (Stage::AwaitingCode, EventView::Quiet { elapsed }) => self.after_quiet(elapsed),
            (Stage::AwaitingCode, EventView::Data(buffer)) if buffer.len() == 1 => self.after_code(
                buffer[0],
            ),
            (Stage::InPayload { code }, EventView::Data(buffer)) if buffer.len() == 0
                => self.finished(Err(ScannerError::NoData)),
            (Stage::InPayload { code }, EventView::Data(buffer)) if buffer.len() == 1
                => self.after_scan_byte(code, buffer[0]),
            _ => self.finished(Err(ScannerError::UnexpectedEvent)),
        }
    }
}

/// The session with a scanner at the far end of a serial link.
///
/// It keeps the scan timeout that the device was last told, and between the
/// first action of a call and its `Action::Finish` the state of that call.
pub struct BarcodeScanner {
    scan_timeout: u64,
    stage: Stage,
    queue: Vec<(u16, u8)>,
    lines: Vec<Vec<u8>>,
    line: Vec<u8>,
}

impl View for BarcodeScanner {
    type V = ScannerView;

    closed spec fn view(&self) -> ScannerView {
        ScannerView {
            scan_timeout: self.scan_timeout,
            stage: self.stage,
            queue: self.queue@,
            lines: lines_view(self.lines@),
            line: self.line@,
        }
    }
}

/// Builds the frame that reads the register at `address`.
fn read_register(address: u16) -> (frame: Vec<u8>)
    ensures
        frame@ == read_frame(address, 1),
{
    build_frame(FUNCTION_READ, 1, address, Some(1), None)
}

/// Builds the frame that writes `value` to the register at `address`.
fn write_register(address: u16, value: u8) -> (frame: Vec<u8>)
    ensures
        frame@ == write_frame(address, seq![value]),
{
    let mut data: Vec<u8> = Vec::new();
    data.push(value);
    build_frame(FUNCTION_WRITE, 1, address, None, Some(data.as_slice()))
}

/// A list of one register write.
fn single_write(address: u16, value: u8) -> (writes: Vec<(u16, u8)>)
    ensures
        writes@ == seq![(address, value)],
{
    let mut writes: Vec<(u16, u8)> = Vec::new();
    writes.push((address, value));
    writes
}

impl BarcodeScanner {
    /// The scan timeout and what is on its way to the device are within the
    /// limits of the device.
    #[verifier::type_invariant]
    spec fn within_limits(self) -> bool {
        self@.within_limits()
    }

    /// Ends the call under way with `result`.
    fn finish(&mut self, result: Result<Reply, ScannerError>) -> (action: Action)
        ensures
            (final(self)@, action@) == old(self)@.finished(result_view(result)),
    {
        proof {
            use_type_invariant(&*self);
        }
        self.stage = Stage::Idle;
        self.queue = Vec::new();
        self.lines = Vec::new();
        self.line = Vec::new();
        assert(lines_view(self.lines@) == Seq::<Seq<u8>>::empty());
        Action::Finish(result)
    }

    /// Hands out `frame` for writing and notes what its reply is needed for.
    fn send(&mut self, frame: Vec<u8>, plan: Plan, queue: Vec<(u16, u8)>) -> (action: Action)
        requires
            plan matches Plan::Timeout { millis } ==> 1 <= millis <= MAX_SCAN_TIMEOUT,
            plan matches Plan::Data { count } ==> count <= MAX_PAYLOAD,
        ensures
            (final(self)@, action@) == old(self)@.sending(frame@, plan, queue@),
    {
        proof {
            use_type_invariant(&*self);
        }
        self.stage = Stage::Sending(plan);
        self.queue = queue;
        self.lines = Vec::new();
        self.line = Vec::new();
        assert(lines_view(self.lines@) == Seq::<Seq<u8>>::empty());
        Action::Write(frame)
    }

    /// Starts on the register writes of `writes`.
    fn write_all(&mut self, writes: Vec<(u16, u8)>) -> (action: Action)
        ensures
            (final(self)@, action@) == old(self)@.writing(writes@),
    {
        let mut rest = writes;
        if rest.len() == 0 {
            return self.finish(Ok(Reply::Acknowledged));
        }
        let (address, value) = rest.remove(0);
        self.send(write_register(address, value), Plan::Acknowledge, rest)
    }

    /// Starts on reading the register at `address` for `plan`.
    fn read(&mut self, address: u16, plan: Plan) -> (action: Action)
        requires
            !(plan is Timeout),
            !(plan is Data),
        ensures
            (final(self)@, action@) == old(self)@.reading(address, plan),
    {
        self.send(read_register(address), plan, Vec::new())
    }

    /// Starts a session on a link that the caller has opened at `BAUD_RATE`
    /// and reads from in polls of `POLL_INTERVAL`.
    ///
    /// What is pending on the link from before is dropped first. Then the
    /// device is told how to lay out its scan data, so that the data of every
    /// scan of the session can be decoded. The scan timeout is the one that
    /// the device starts with.
    pub fn new() -> (started: (BarcodeScanner, Action))
        ensures
            (started.0@, started.1@) == ScannerView::opening(),
    {
        let scanner = BarcodeScanner {
            scan_timeout: DEFAULT_SCAN_TIMEOUT,
            stage: Stage::Discarding,
            queue: Vec::new(),
            lines: Vec::new(),
            line: Vec::new(),
        };
        assert(lines_view(scanner.lines@) == Seq::<Seq<u8>>::empty());
        (scanner, Action::Discard)
    }

    /// Asks for `count` bytes starting at the register at `address`.
    ///
    /// The call ends with the bytes that the device sent, of which there may
    /// be fewer than were asked for but never more. More than 256 bytes
    /// cannot be asked for.
    pub fn send_read_command_fixed_reply(&mut self, address: u16, count: usize) -> (action: Action)
        ensures
            (final(self)@, action@) == old(self)@.reading_data(address, count),
    {
        match read_command(address, count) {
            Ok(frame) => self.send(frame, Plan::Data { count }, Vec::new()),
            Err(error) => self.finish(Err(error)),
        }
    }

    /// Writes `data` starting at the register at `address`.
    ///
    /// The call ends when the device has acknowledged the write. More than
    /// 255 bytes cannot be written at once.
    pub fn send_write_command(&mut self, address: u16, data: &[u8]) -> (action: Action)
        ensures
            (final(self)@, action@) == old(self)@.writing_data(address, data@),
    {
        match write_command(address, data) {
            Ok(frame) => self.send(frame, Plan::Acknowledge, Vec::new()),
            Err(error) => self.finish(Err(error)),
        }
    }

    /// How long a scan may take, in milliseconds: between one millisecond and
    /// 25.5 seconds.
    pub fn scan_timeout(&self) -> (millis: u64)
        ensures
            millis == self@.scan_timeout,
            1 <= millis <= MAX_SCAN_TIMEOUT,
            self@.within_limits(),
    {
        proof {
            use_type_invariant(self);
        }
        self.scan_timeout
    }

    /// Where the session stands.
    pub fn stage(&self) -> (stage: Stage)
        ensures
            stage == self@.stage,
    {
        self.stage
    }

    /// Asks for the hardware version of the device.
    pub fn get_hw_version(&mut self) -> (action: Action)
        ensures
            (final(self)@, action@) == old(self)@.reading(ADDRESS_HW_VERSION, Plan::Version),
    {
        self.read(ADDRESS_HW_VERSION, Plan::Version)
    }

    /// Asks for the software version of the device.
    pub fn get_sw_version(&mut self) -> (action: Action)
        ensures
            (final(self)@, action@) == old(self)@.reading(ADDRESS_SW_VERSION, Plan::Version),
    {
        self.read(ADDRESS_SW_VERSION, Plan::Version)
    }

    /// Asks for the day the software of the device was built: its year, then
    /// its month, then its day.
    pub fn get_sw_date(&mut self) -> (action: Action)
        ensures
            (final(self)@, action@) == old(self)@.reading(ADDRESS_SW_YEAR, Plan::BuildYear),
    {
        self.read(ADDRESS_SW_YEAR, Plan::BuildYear)
    }

    /// Tells the device to start scanning.
    pub fn start_scan(&mut self) -> (action: Action)
        ensures
            (final(self)@, action@) == old(self)@.writing(seq![(ADDRESS_SCAN, 0x01u8)]),
    {
        self.write_all(single_write(ADDRESS_SCAN, 0x01))
    }

    /// Tells the device to stop scanning.
    pub fn stop_scan(&mut self) -> (action: Action)
        ensures
            (final(self)@, action@) == old(self)@.writing(seq![(ADDRESS_SCAN, 0x00u8)]),
    {
        self.write_all(single_write(ADDRESS_SCAN, 0x00))
    }

    /// Waits for the data of a scanned barcode, for as long as a scan may
    /// take, then reads it to its end and decodes it.
    pub fn read_barcode(&mut self) -> (action: Action)
        ensures
            (final(self)@, action@) == old(self)@.awaiting_scan(),
    {
        proof {
            use_type_invariant(&*self);
        }
        self.stage = Stage::AwaitingCode;
        self.queue = Vec::new();
        self.lines = Vec::new();
        self.line = Vec::new();
        assert(lines_view(self.lines@) == Seq::<Seq<u8>>::empty());
        Action::Poll { count: 1 }
    }

    /// Takes the step that follows a poll for the type of a scanned barcode
    /// that timed out `elapsed` milliseconds into the call.
    fn accept_quiet(&mut self, elapsed: u64) -> (action: Action)
        ensures
            (final(self)@, action@) == old(self)@.after_quiet(elapsed),
    {
        if elapsed < self.scan_timeout {
            self.read_barcode()
        } else {
            self.finish(Ok(Reply::Scan(None)))
        }
    }

    /// Sets the operation mode, the lights and the buzzer of the device.
    pub fn set_mode(
        &mut self,
        enable_led_indication_on_successful_scan: bool,
        enable_buzzer: bool,
        target_light_mode: TargetLightMode,
        illumination_mode: IlluminationMode,
        operation_mode: OperationMode,
    ) -> (action: Action)
        ensures
            (final(self)@, action@) == old(self)@.writing(
                seq![
                    (
                        ADDRESS_MODE,
                        mode_value(
                            enable_led_indication_on_successful_scan,
                            enable_buzzer,
                            target_light_mode,
                            illumination_mode,
                            operation_mode,
                        ),
                    ),
                ],
            ),
    {
        let value = encode_mode(
            enable_led_indication_on_successful_scan,
            enable_buzzer,
            target_light_mode,
            illumination_mode,
            operation_mode,
        );
        self.write_all(single_write(ADDRESS_MODE, value))
    }

    /// Sets the part of the view in which the device looks for barcodes and
    /// the barcode types that it recognises.
    pub fn set_scan_area_and_barcodes(
        &mut self,
        scan_area: ScanArea,
        allowed_barcodes: Barcodes,
    ) -> (action: Action)
        ensures
            (final(self)@, action@) == old(self)@.writing(
                seq![(ADDRESS_SCAN_AREA, scan_area_value(scan_area, allowed_barcodes))],
            ),
    {
        let value = encode_scan_area(scan_area, allowed_barcodes);
        self.write_all(single_write(ADDRESS_SCAN_AREA, value))
    }

    /// Sets how long a scan may take, in milliseconds.
    ///
    /// From one millisecond to 25.5 seconds the timeout is written to the
    /// device in whole tenths of a second, and becomes the session's once the
    /// device has acknowledged it. A timeout of zero or of more than 25.5
    /// seconds ends the call at once with a failure.
    pub fn set_scan_timeout(&mut self, scan_timeout: u64) -> (action: Action)
        ensures
            (final(self)@, action@) == old(self)@.setting_timeout(scan_timeout),
            action@ is Write <==> 1 <= scan_timeout <= MAX_SCAN_TIMEOUT,
    {
        match encode_timeout(scan_timeout) {
            Ok(value) => self.send(
                write_register(ADDRESS_SCAN_TIMEOUT, value),
                Plan::Timeout { millis: scan_timeout },
                Vec::new(),
            ),
            Err(error) => self.finish(Err(error)),
        }
    }

    /// Tells the device to recognise or to ignore a barcode type, and which
    /// lengths of it to accept: see `Symbology::writes`.
    pub fn configure_symbology(
        &mut self,
        symbology: Symbology,
        enable: bool,
        enabled: u8,
        min_length: Option<u8>,
        max_length: Option<u8>,
    ) -> (action: Action)
        ensures
            (final(self)@, action@) == old(self)@.writing(
                symbology.writes(enable, enabled, min_length, max_length),
            ),
    {
        self.write_all(symbology.plan(enable, enabled, min_length, max_length))
    }

    /// Tells the device to recognise or to ignore EAN13 barcodes.
    pub fn allow_ean13(&mut self, enable: bool) -> (action: Action)
        ensures
            (final(self)@, action@) == old(self)@.writing(
                Symbology::Ean13.writes(enable, 0x01, None, None),
            ),
    {
        self.configure_symbology(Symbology::Ean13, enable, 0x01, None, None)
    }

    /// Tells the device to recognise or to ignore EAN8 barcodes.
    pub fn allow_ean8(&mut self, enable: bool) -> (action: Action)
        ensures
            (final(self)@, action@) == old(self)@.writing(
                Symbology::Ean8.writes(enable, 0x01, None, None),
            ),
    {
        self.configure_symbology(Symbology::Ean8, enable, 0x01, None, None)
    }

    /// Tells the device to recognise or to ignore GS1 Databar Stacked barcodes.
    pub fn allow_rss_stack(&mut self, enable: bool) -> (action: Action)
        ensures
            (final(self)@, action@) == old(self)@.writing(
                Symbology::RssStack.writes(enable, 0x01, None, None),
            ),
    {
        self.configure_symbology(Symbology::RssStack, enable, 0x01, None, None)
    }

    /// Tells the device to recognise or to ignore GS1 Databar (RSS-14) barcodes.
    pub fn allow_rss14(&mut self, enable: bool) -> (action: Action)
        ensures
            (final(self)@, action@) == old(self)@.writing(
                Symbology::Rss14.writes(enable, 0x01, None, None),
            ),
    {
        self.configure_symbology(Symbology::Rss14, enable, 0x01, None, None)
    }

    /// Tells the device to recognise or to ignore GS1 Databar Limited barcodes.
    pub fn allow_limited_rss(&mut self, enable: bool) -> (action: Action)
        ensures
            (final(self)@, action@) == old(self)@.writing(
                Symbology::LimitedRss.writes(enable, 0x01, None, None),
            ),
    {
        self.configure_symbology(Symbology::LimitedRss, enable, 0x01, None, None)
    }

    /// Tells the device to recognise or to ignore GS1 Databar Expanded barcodes and,
    /// where given, the shortest and the longest of them to accept.
    pub fn allow_expanded_rss(
        &mut self,
        enable: bool,
        min_length: Option<u8>,
        max_length: Option<u8>,
    ) -> (action: Action)
        ensures
            (final(self)@, action@) == old(self)@.writing(
                Symbology::ExpandedRss.writes(enable, 0x01, min_length, max_length),
            ),
    {
        self.configure_symbology(Symbology::ExpandedRss, enable, 0x01, min_length, max_length)
    }

    /// Tells the device to recognise or to ignore MSI-Plessey barcodes and,
    /// where given, the shortest and the longest of them to accept.
    pub fn allow_msi(
        &mut self,
        enable: bool,
        min_length: Option<u8>,
        max_length: Option<u8>,
    ) -> (action: Action)
        ensures
            (final(self)@, action@) == old(self)@.writing(
                Symbology::Msi.writes(enable, 0x01, min_length, max_length),
            ),
    {
        self.configure_symbology(Symbology::Msi, enable, 0x01, min_length, max_length)
    }

    /// Tells the device to recognise or to ignore Code 11 barcodes and,
    /// where given, the shortest and the longest of them to accept.
    pub fn allow_code11(
        &mut self,
        enable: bool,
        min_length: Option<u8>,
        max_length: Option<u8>,
    ) -> (action: Action)
        ensures
            (final(self)@, action@) == old(self)@.writing(
                Symbology::Code11.writes(enable, 0x01, min_length, max_length),
            ),
    {
        self.configure_symbology(Symbology::Code11, enable, 0x01, min_length, max_length)
    }

    /// Tells the device to recognise or to ignore Matrix 2 of 5 barcodes and,
    /// where given, the shortest and the longest of them to accept.
    pub fn allow_matrix2of5(
        &mut self,
        enable: bool,
        min_length: Option<u8>,
        max_length: Option<u8>,
    ) -> (action: Action)
        ensures
            (final(self)@, action@) == old(self)@.writing(
                Symbology::Matrix2of5.writes(enable, 0x01, min_length, max_length),
            ),
    {
        self.configure_symbology(Symbology::Matrix2of5, enable, 0x01, min_length, max_length)
    }

    /// Tells the device to recognise or to ignore Industrial 2 of 5 barcodes and,
    /// where given, the shortest and the longest of them to accept.
    pub fn allow_industrial(
        &mut self,
        enable: bool,
        min_length: Option<u8>,
        max_length: Option<u8>,
    ) -> (action: Action)
        ensures
            (final(self)@, action@) == old(self)@.writing(
                Symbology::Industrial.writes(enable, 0x01, min_length, max_length),
            ),
    {
        self.configure_symbology(Symbology::Industrial, enable, 0x01, min_length, max_length)
    }

    /// Tells the device to recognise or to ignore Codabar barcodes, whether to
    /// hand out their start and stop characters and, where given, the
    /// shortest and the longest of them to accept.
    pub fn allow_codebar(
        &mut self,
        enable: bool,
        with_start_stop_character: bool,
        min_length: Option<u8>,
        max_length: Option<u8>,
    ) -> (action: Action)
        ensures
            (final(self)@, action@) == old(self)@.writing(
                Symbology::Codebar.writes(
                    enable,
                    if with_start_stop_character {
                        0x03
                    } else {
                        0x01
                    },
                    min_length,
                    max_length,
                ),
            ),
    {
        let enabled: u8 = if with_start_stop_character {
            0x03
        } else {
            0x01
        };
        self.configure_symbology(Symbology::Codebar, enable, enabled, min_length, max_length)
    }

    /// Tells the device to recognise or to ignore Code 128 barcodes and,
    /// where given, the shortest and the longest of them to accept.
    pub fn allow_code128(
        &mut self,
        enable: bool,
        min_length: Option<u8>,
        max_length: Option<u8>,
    ) -> (action: Action)
        ensures
            (final(self)@, action@) == old(self)@.writing(
                Symbology::Code128.writes(enable, 0x01, min_length, max_length),
            ),
    {
        self.configure_symbology(Symbology::Code128, enable, 0x01, min_length, max_length)
    }

    /// Tells the device to recognise or to ignore Code 39 barcodes and,
    /// where given, the shortest and the longest of them to accept.
    pub fn allow_code39(
        &mut self,
        enable: bool,
        min_length: Option<u8>,
        max_length: Option<u8>,
    ) -> (action: Action)
        ensures
            (final(self)@, action@) == old(self)@.writing(
                Symbology::Code39.writes(enable, 0x01, min_length, max_length),
            ),
    {
        self.configure_symbology(Symbology::Code39, enable, 0x01, min_length, max_length)
    }

    /// Tells the device to recognise or to ignore Code 93 barcodes and,
    /// where given, the shortest and the longest of them to accept.
    pub fn allow_code93(
        &mut self,
        enable: bool,
        min_length: Option<u8>,
        max_length: Option<u8>,
    ) -> (action: Action)
        ensures
            (final(self)@, action@) == old(self)@.writing(
                Symbology::Code93.writes(enable, 0x01, min_length, max_length),
            ),
    {
        self.configure_symbology(Symbology::Code93, enable, 0x01, min_length, max_length)
    }

    /// Tells the device to recognise or to ignore UPC-A barcodes.
    pub fn allow_upca(&mut self, enable: bool) -> (action: Action)
        ensures
            (final(self)@, action@) == old(self)@.writing(
                Symbology::Upca.writes(enable, 0x01, None, None),
            ),
    {
        self.configure_symbology(Symbology::Upca, enable, 0x01, None, None)
    }

    /// Tells the device to recognise or to ignore UPC-E0 barcodes.
    pub fn allow_upce0(&mut self, enable: bool) -> (action: Action)
        ensures
            (final(self)@, action@) == old(self)@.writing(
                Symbology::Upce0.writes(enable, 0x01, None, None),
            ),
    {
        self.configure_symbology(Symbology::Upce0, enable, 0x01, None, None)
    }

    /// Tells the device to recognise or to ignore UPC-E1 barcodes.
    pub fn allow_upce1(&mut self, enable: bool) -> (action: Action)
        ensures
            (final(self)@, action@) == old(self)@.writing(
                Symbology::Upce1.writes(enable, 0x01, None, None),
            ),
    {
        self.configure_symbology(Symbology::Upce1, enable, 0x01, None, None)
    }

    /// Tells the device to recognise or to ignore PDF417 barcodes.
    pub fn allow_pdf417(&mut self, enable: bool) -> (action: Action)
        ensures
            (final(self)@, action@) == old(self)@.writing(
                Symbology::Pdf417.writes(enable, 0x01, None, None),
            ),
    {
        self.configure_symbology(Symbology::Pdf417, enable, 0x01, None, None)
    }

    /// Tells the device to recognise or to ignore Micro PDF417 barcodes.
    pub fn allow_micro_pdf417(&mut self, enable: bool) -> (action: Action)
        ensures
            (final(self)@, action@) == old(self)@.writing(
                Symbology::MicroPdf417.writes(enable, 0x01, None, None),
            ),
    {
        self.configure_symbology(Symbology::MicroPdf417, enable, 0x01, None, None)
    }

    /// Tells the device to recognise or to ignore ISBN barcodes.
    pub fn allow_micro_isbn(&mut self, enable: bool) -> (action: Action)
        ensures
            (final(self)@, action@) == old(self)@.writing(
                Symbology::Isbn.writes(enable, 0x01, None, None),
            ),
    {
        self.configure_symbology(Symbology::Isbn, enable, 0x01, None, None)
    }

    /// Tells the device to recognise or to ignore ISSN barcodes.
    pub fn allow_micro_issn(&mut self, enable: bool) -> (action: Action)
        ensures
            (final(self)@, action@) == old(self)@.writing(
                Symbology::Issn.writes(enable, 0x01, None, None),
            ),
    {
        self.configure_symbology(Symbology::Issn, enable, 0x01, None, None)
    }

    /// Tells the device to recognise or to ignore dot matrix barcodes.
    pub fn allow_dotmatrix(&mut self, enable: bool) -> (action: Action)
        ensures
            (final(self)@, action@) == old(self)@.writing(
                Symbology::DotMatrix.writes(enable, 0x01, None, None),
            ),
    {
        self.configure_symbology(Symbology::DotMatrix, enable, 0x01, None, None)
    }

    /// Tells the device to recognise or to ignore QR barcodes.
    pub fn allow_qr(&mut self, enable: bool) -> (action: Action)
        ensures
            (final(self)@, action@) == old(self)@.writing(
                Symbology::Qr.writes(enable, 0x01, None, None),
            ),
    {
        self.configure_symbology(Symbology::Qr, enable, 0x01, None, None)
    }

    /// Tells the device to recognise or to ignore Micro QR barcodes.
    pub fn allow_microqr(&mut self, enable: bool) -> (action: Action)
        ensures
            (final(self)@, action@) == old(self)@.writing(
                Symbology::MicroQr.writes(enable, 0x01, None, None),
            ),
    {
        self.configure_symbology(Symbology::MicroQr, enable, 0x01, None, None)
    }

    /// Tells the device to recognise or to ignore Interleaved 2 of 5 barcodes and,
    /// where given, the shortest and the longest of them to accept.
    pub fn allow_interleaved2of5(
        &mut self,
        enable: bool,
        min_length: Option<u8>,
        max_length: Option<u8>,
    ) -> (action: Action)
        ensures
            (final(self)@, action@) == old(self)@.writing(
                Symbology::Interleaved2of5.writes(enable, 0x01, min_length, max_length),
            ),
    {
        self.configure_symbology(Symbology::Interleaved2of5, enable, 0x01, min_length, max_length)
    }

    /// Forbids barcodes that change the settings of the device: the register
    /// is read, changed and written back.
    pub fn disable_setting_scanning(&mut self) -> (action: Action)
        ensures
            (final(self)@, action@) == old(self)@.reading(
                ADDRESS_SETTING_CODES,
                Plan::SettingCodes { enable: false },
            ),
    {
        self.read(ADDRESS_SETTING_CODES, Plan::SettingCodes { enable: false })
    }

    /// Allows barcodes that change the settings of the device: the register
    /// is read, changed and written back.
    pub fn enable_setting_scanning(&mut self) -> (action: Action)
        ensures
            (final(self)@, action@) == old(self)@.reading(
                ADDRESS_SETTING_CODES,
                Plan::SettingCodes { enable: true },
            ),
    {
        self.read(ADDRESS_SETTING_CODES, Plan::SettingCodes { enable: true })
    }

    /// Tells the device to commit its settings to flash.
    pub fn save_to_flash(&mut self) -> (action: Action)
        ensures
            (final(self)@, action@) == old(self)@.sending(
                save_frame(),
                Plan::Acknowledge,
                Seq::empty(),
            ),
    {
        let mut data: Vec<u8> = Vec::new();
        data.push(0x00);
        let frame = build_frame(FUNCTION_SAVE, 1, 0x0000, None, Some(data.as_slice()));
        self.send(frame, Plan::Acknowledge, Vec::new())
    }

    /// Tells the device to go back to its factory defaults.
    pub fn factory_reset(&mut self) -> (action: Action)
        ensures
            (final(self)@, action@) == old(self)@.writing(
                seq![(ADDRESS_FACTORY_RESET, FACTORY_RESET)],
            ),
    {
        self.write_all(single_write(ADDRESS_FACTORY_RESET, FACTORY_RESET))
    }

    /// Takes the step that follows the value of a register read for `plan`.
    fn accept_value(&mut self, plan: Plan, value: u8) -> (action: Action)
        ensures
            (final(self)@, action@) == old(self)@.after_value(plan, value),
    {
        proof {
            use_type_invariant(&*self);
        }
        match plan {
            Plan::Version => self.finish(Ok(Reply::Version(version_name(value)))),
            Plan::BuildYear => self.read(ADDRESS_SW_MONTH, Plan::BuildMonth { year: value }),
            Plan::BuildMonth { year } => self.read(
                ADDRESS_SW_DAY,
                Plan::BuildDay { year, month: value },
            ),
            Plan::BuildDay { year, month } => {
                match SoftwareDate::from_registers(year, month, value) {
                    Ok(date) => self.finish(Ok(Reply::BuildDate(date))),
                    Err(error) => self.finish(Err(error)),
                }
            },
            Plan::SettingCodes { enable } => {
                let changed = encode_setting_codes(value, enable);
                self.write_all(single_write(ADDRESS_SETTING_CODES, changed))
            },
            Plan::Acknowledge | Plan::Timeout { .. } | Plan::Data { .. } => self.finish(
                Err(ScannerError::UnexpectedEvent),
            ),
        }
    }

    /// Takes the step that follows a parsed reply: see
    /// `ScannerView::after_reply`.
    pub fn accept(&mut self, reply: Result<Vec<u8>, ScannerError>) -> (action: Action)
        ensures
            (final(self)@, action@) == old(self)@.after_reply(payload_view(reply)),
    {
        proof {
            use_type_invariant(&*self);
        }
        match self.stage {
            Stage::Receiving(plan) => match reply {
                Err(error) => self.finish(Err(error)),
                Ok(payload) => match plan {
                    Plan::Acknowledge => {
                        let mut queue: Vec<(u16, u8)> = Vec::new();
                        core::mem::swap(&mut queue, &mut self.queue);
                        self.write_all(queue)
                    },
                    Plan::Timeout { millis } => {
                        self.scan_timeout = millis;
                        self.finish(Ok(Reply::Acknowledged))
                    },
                    Plan::Data { count } => if payload.len() > count {
                        self.finish(
                            Err(
                                ScannerError::PayloadOverrun {
                                    declared: payload.len(),
                                    capacity: count,
                                },
                            ),
                        )
                    } else {
                        self.finish(Ok(Reply::Data(payload)))
                    },
                    _ => if payload.len() != 1 {
                        self.finish(
                            Err(
                                ScannerError::IncorrectLength {
                                    asked: 1,
                                    received: payload.len(),
                                },
                            ),
                        )
                    } else {
                        self.accept_value(plan, payload[0])
                    },
                },
            },
            _ => self.finish(Err(ScannerError::UnexpectedEvent)),
        }
    }

    /// Takes the step that follows the byte that tells the type of a scanned
    /// barcode.
    fn accept_code(&mut self, byte: u8) -> (action: Action)
        ensures
            (final(self)@, action@) == old(self)@.after_code(byte),
    {
        proof {
            use_type_invariant(&*self);
        }
        if byte == NO_CODE {
            return self.finish(Ok(Reply::Scan(None)));
        }
        self.stage = Stage::InPayload { code: byte };
        self.queue = Vec::new();
        self.lines = Vec::new();
        self.line = Vec::new();
        assert(lines_view(self.lines@) == Seq::<Seq<u8>>::empty());
        Action::ReadByte
    }

    /// Closes the line in progress: it joins the collected lines unless it is
    /// empty.
    fn close_line(&mut self)
        ensures
            final(self)@ == (ScannerView {
                scan_timeout: old(self)@.scan_timeout,
                stage: old(self)@.stage,
                queue: old(self)@.queue,
                lines: closed(old(self)@.lines, old(self)@.line),
                line: Seq::empty(),
            }),
    {
        proof {
            use_type_invariant(&*self);
        }
        let mut line: Vec<u8> = Vec::new();
        core::mem::swap(&mut line, &mut self.line);
        if line.len() > 0 {
            let mut lines: Vec<Vec<u8>> = Vec::new();
            core::mem::swap(&mut lines, &mut self.lines);
            lines.push(line);
            self.lines = lines;
            assert(lines_view(self.lines@) == lines_view(old(self).lines@).push(line@));
        }
    }

    /// Takes the step that follows a byte of the data of a scanned barcode
    /// of type `code`.
    fn accept_scan_byte(&mut self, code: u8, byte: u8) -> (action: Action)
        ensures
            (final(self)@, action@) == old(self)@.after_scan_byte(code, byte),
    {
        proof {
            use_type_invariant(&*self);
        }
        if byte == END_OF_DATA {
            self.close_line();
            match decode_scan(code, &self.lines) {
                Ok(barcode) => self.finish(Ok(Reply::Scan(barcode))),
                Err(error) => self.finish(Err(error)),
            }
        } else if byte == END_OF_LINE {
            self.close_line();
            Action::ReadByte
        } else {
            let mut line: Vec<u8> = Vec::new();
            core::mem::swap(&mut line, &mut self.line);
            line.push(byte);
            self.line = line;
            Action::ReadByte
        }
    }

    /// Takes the step that follows what happened on the link: see
    /// `ScannerView::after_event`.
    pub fn handle(&mut self, event: Event) -> (action: Action)
        ensures
            (final(self)@, action@) == old(self)@.after_event(event@),
    {
        match (self.stage, event) {
            (Stage::Discarding, Event::Discarded) => self.write_all(
                single_write(ADDRESS_RESULT_OPTIONS, RESULT_OPTIONS),
            ),
            (Stage::Sending(plan), Event::Written) => {
                proof {
                    use_type_invariant(&*self);
                }
                self.stage = Stage::Receiving(plan);
                match plan {
                    Plan::Data { count } => Action::Read(count + REPLY_ENVELOPE),
                    _ => Action::Read(REPLY_LENGTH),
                }
            },
            (Stage::Receiving(_), Event::Data(buffer)) => {
                let reply = parse_reply(buffer.as_slice());
                self.accept(reply)
            },
            (Stage::AwaitingCode, Event::Quiet { elapsed }) => self.accept_quiet(elapsed),
            (Stage::AwaitingCode, Event::Data(buffer)) if buffer.len() == 1 => self.accept_code(
                buffer[0],
            ),
            (Stage::InPayload { code }, Event::Data(buffer)) if buffer.len() == 0 => self.finish(
                Err(ScannerError::NoData),
            ),
            (Stage::InPayload { code }, Event::Data(buffer)) if buffer.len() == 1
                => self.accept_scan_byte(code, buffer[0]),
            _ => self.finish(Err(ScannerError::UnexpectedEvent)),
        }
    }
}

/// The data of a scan, arriving byte by byte, is assembled into its lines,
/// and the carriage return behind it ends the call with the barcode that the
/// lines decode to.
///
/// `session` waits for the first byte of the data of a barcode of type
/// `code`; `bytes` is the data up to the carriage return.
pub proof fn lemma_scan_data_is_decoded(session: ScannerView, code: u8, bytes: Seq<u8>)
    requires
        session.stage == (Stage::InPayload { code }),
        session.lines.len() == 0,
        session.line.len() == 0,
        !bytes.contains(END_OF_DATA),
    ensures
        session.after_bytes(bytes) == (ScannerView {
            scan_timeout: session.scan_timeout,
            stage: session.stage,
            queue: session.queue,
            lines: assembled(bytes).0,
            line: assembled(bytes).1,
        }),
        session.after_bytes(bytes).after_event(EventView::Data(seq![END_OF_DATA]))
            == session.finished(scan_reply(decoded_scan(code, payload_lines(bytes)))),
    decreases bytes.len(),
{
    if bytes.len() == 0 {
        assert(session.lines == Seq::<Seq<u8>>::empty());
        assert(session.line == Seq::<u8>::empty());
    } else {
        lemma_scan_data_is_decoded(session, code, bytes.drop_last());
    }
}

/// A session starts by dropping what is pending on the link, then writes the
/// layout of the scan data to the device; once that is acknowledged the
/// session is at rest with the scan timeout that the device starts with.
pub proof fn lemma_session_start(payload: Seq<u8>)
    ensures
        ScannerView::opening().1 == ActionView::Discard,
        ScannerView::opening().0.after_event(EventView::Discarded).1 == ActionView::Write(
            write_frame(ADDRESS_RESULT_OPTIONS, seq![RESULT_OPTIONS]),
        ),
        ScannerView::opening().0.after_event(EventView::Discarded).0.answered(payload) == (
            ScannerView::fresh(),
            ActionView::Finish(Ok(ReplyView::Acknowledged)),
        ),
        ScannerView::fresh().within_limits(),
        ScannerView::opening().0.within_limits(),
{
}

/// Register writes go out one at a time and in order: once the device has
/// acknowledged the first of `writes`, the session stands as if the call had
/// been for the rest of them.
pub proof fn lemma_writes_go_out_in_order(
    session: ScannerView,
    writes: Seq<(u16, u8)>,
    payload: Seq<u8>,
)
    requires
        writes.len() > 0,
    ensures
        session.writing(writes).1 == ActionView::Write(
            write_frame(writes[0].0, seq![writes[0].1]),
        ),
        session.writing(writes).0.after_event(EventView::Written).1 == ActionView::Read(
            REPLY_LENGTH,
        ),
        session.writing(writes).0.answered(payload) == session.writing(writes.skip(1)),
        writes.len() == 1 ==> session.writing(writes).0.answered(payload) == session.finished(
            Ok(ReplyView::Acknowledged),
        ),
{
}

/// A version is asked for in one round trip: the register is read, and the
/// byte that comes back is named.
pub proof fn lemma_version_call(session: ScannerView, address: u16, value: u8)
    ensures
        session.reading(address, Plan::Version).1 == ActionView::Write(read_frame(address, 1)),
        session.reading(address, Plan::Version).0.answered(seq![value]) == session.finished(
            Ok(ReplyView::Version(version_text(value))),
        ),
{
}

/// The build date is asked for in three round trips: the year, the month and
/// the day are read in this order, and what comes back is made a date, or a
/// failure where it is none.
pub proof fn lemma_build_date_call(session: ScannerView, year: u8, month: u8, day: u8)
    ensures
        ({
            let first = session.reading(ADDRESS_SW_YEAR, Plan::BuildYear);
            let second = first.0.answered(seq![year]);
            let third = second.0.answered(seq![month]);
            &&& first.1 == ActionView::Write(read_frame(ADDRESS_SW_YEAR, 1))
            &&& second.1 == ActionView::Write(read_frame(ADDRESS_SW_MONTH, 1))
            &&& third.1 == ActionView::Write(read_frame(ADDRESS_SW_DAY, 1))
            &&& third.0.answered(seq![day]) == session.finished(build_date_reply(year, month, day))
        }),
{
}

/// Setting codes are allowed or forbidden in two round trips: the register
/// is read, then written back with its two lowest bits changed.
pub proof fn lemma_setting_codes_call(
    session: ScannerView,
    enable: bool,
    current: u8,
    payload: Seq<u8>,
)
    ensures
        ({
            let first = session.reading(ADDRESS_SETTING_CODES, Plan::SettingCodes { enable });
            let second = first.0.answered(seq![current]);
            &&& first.1 == ActionView::Write(read_frame(ADDRESS_SETTING_CODES, 1))
            &&& second.1 == ActionView::Write(
                write_frame(ADDRESS_SETTING_CODES, seq![setting_codes_value(current, enable)]),
            )
            &&& second.0.answered(payload) == session.finished(Ok(ReplyView::Acknowledged))
        }),
{
}

/// A scan timeout within the limits of the device becomes the session's when
/// the device acknowledges it, and not before; one outside the limits ends
/// the call at once and changes nothing.
pub proof fn lemma_scan_timeout_call(session: ScannerView, millis: u64, payload: Seq<u8>)
    ensures
        1 <= millis <= MAX_SCAN_TIMEOUT ==> {
            let first = session.setting_timeout(millis);
            &&& first.1 == ActionView::Write(
                write_frame(ADDRESS_SCAN_TIMEOUT, seq![(millis / 100) as u8]),
            )
            &&& first.0.scan_timeout == session.scan_timeout
            &&& first.0.after_event(EventView::Written).0.scan_timeout == session.scan_timeout
            &&& first.0.answered(payload) == (
                session.at_rest().with_timeout(millis),
                ActionView::Finish(Ok(ReplyView::Acknowledged)),
            )
        },
        millis == 0 ==> session.setting_timeout(millis) == session.finished(
            Err(ScannerError::TimeoutUnsupported),
        ),
        millis > MAX_SCAN_TIMEOUT ==> session.setting_timeout(millis) == session.finished(
            Err(ScannerError::TimeoutTooLong { millis }),
        ),
{
}

/// Bytes are read in one round trip: the reply is read in full, six bytes of
/// framing more than were asked for, and what it carries is handed over.
pub proof fn lemma_read_call(session: ScannerView, address: u16, count: usize, payload: Seq<u8>)
    requires
        count <= MAX_PAYLOAD,
        payload.len() <= count,
    ensures
        session.reading_data(address, count).1 == ActionView::Write(read_frame(address, count)),
        session.reading_data(address, count).0.after_event(EventView::Written).1
            == ActionView::Read((count + REPLY_ENVELOPE) as usize),
        session.reading_data(address, count).0.answered(payload) == session.finished(
            Ok(ReplyView::Data(payload)),
        ),
{
}

/// A scan for which nothing arrives is polled for until the scan timeout has
/// passed, and then is over with no barcode.
pub proof fn lemma_scan_deadline(session: ScannerView, elapsed: u64)
    ensures
        session.awaiting_scan().1 == (ActionView::Poll { count: 1 }),
        elapsed < session.scan_timeout ==> session.awaiting_scan().0.after_event(
            EventView::Quiet { elapsed },
        ) == session.awaiting_scan(),
        elapsed >= session.scan_timeout ==> session.awaiting_scan().0.after_event(
            EventView::Quiet { elapsed },
        ) == session.finished(Ok(ReplyView::Scan(None))),
{
}

/// The kind of reply that a call ends with is settled by its first action:
/// no step changes it, and the reply of a call that succeeds is of that kind.
pub proof fn lemma_reply_kind_is_settled(session: ScannerView, event: EventView)
    ensures
        session.after_event(event).1 matches ActionView::Finish(Ok(reply))
            ==> session.stage.promises() == Some(reply.kind()),
        !(session.after_event(event).1 is Finish) ==> session.after_event(event).0.stage.promises()
            == session.stage.promises(),
{
}

/// A call that fails leaves the session as it was before the call: at rest,
/// with the scan timeout it had. The scan timeout changes only when the
/// device acknowledges a new one.
pub proof fn lemma_failure_changes_nothing(session: ScannerView, event: EventView)
    ensures
        session.after_event(event).1 matches ActionView::Finish(Err(_)) ==> session.after_event(
            event,
        ).0 == session.at_rest(),
        session.after_event(event).0.scan_timeout != session.scan_timeout ==> (session.stage
            matches Stage::Receiving(Plan::Timeout { millis }) && session.after_event(event).0
            == session.at_rest().with_timeout(millis) && session.after_event(event).1
            == ActionView::Finish(Ok(ReplyView::Acknowledged))),
{
}

/// When a call is over the session is at rest: no stage, no queued writes and
/// no scan data outlive it.
pub proof fn lemma_finished_is_at_rest(session: ScannerView, event: EventView)
    ensures
        session.after_event(event).1 is Finish ==> session.after_event(event).0
            == session.after_event(event).0.at_rest(),
{
}

/// Every step keeps the scan timeout within the limits of the device.
pub proof fn lemma_steps_keep_limits(session: ScannerView, event: EventView)
    requires
        session.within_limits(),
    ensures
        session.after_event(event).0.within_limits(),
{
}

} // verus!
