//! Protocol engine for a serial-attached barcode scanner module.
//!
//! The crate holds the framing, checksum and decoding rules of the scanner's
//! command protocol and the step-by-step logic of every exchange with the
//! device. It performs no input or output itself: a caller owns the serial
//! link, carries out the actions the engine asks for and reports back what
//! happened on the wire.

use vstd::prelude::*;
use vstd::string::StringExecFns;
use crate::text::{decimal, push_decimal};

pub mod crc;
pub mod error;
pub mod frame;
pub mod interface;
pub mod registers;
pub mod scan;
pub mod text;
pub mod version;

verus! {

/// Checksum value that stands for "not calculated": a frame that carries it is
/// accepted without its checksum being verified.
pub const IGNORED_CHECKSUM: u16 = 0xabcd;

/// How the green target light is used.
#[derive(Clone, Copy, Debug, PartialEq, Eq, Structural)]
pub enum TargetLightMode {
    /// The target light is disabled.
    AlwaysOff,
    /// The target light is always on, also when not scanning.
    AlwaysOn,
    /// The target light is on during scanning.
    Standard,
}

/// How the white illumination LED is used.
#[derive(Clone, Copy, Debug, PartialEq, Eq, Structural)]
pub enum IlluminationMode {
    /// The white LED is disabled; scanning in dark environments may be difficult.
    AlwaysOff,
    /// The white LED is always on, also when not scanning.
    AlwaysOn,
    /// The white LED is on during scanning.
    Standard,
}

/// What starts a scan.
#[derive(Clone, Copy, Debug, PartialEq, Eq, Structural)]
pub enum OperationMode {
    /// A push of the button.
    Manual,
    /// A command sent to the device.
    Command,
    /// Nothing: the device scans continuously.
    Continuous,
    /// A change of the ambient brightness.
    Sensing,
}

/// The part of the camera's view in which barcodes are looked for.
#[derive(Clone, Copy, Debug, PartialEq, Eq, Structural)]
pub enum ScanArea {
    /// The entire view.
    All,
    /// The centre of the view.
    Center,
}

/// Which barcode types the device recognises.
#[derive(Clone, Copy, Debug, PartialEq, Eq, Structural)]
pub enum Barcodes {
    /// Every type that the device supports.
    EnableAll,
    /// None.
    DisableAll,
    /// The types that are enabled by default.
    Default,
}

/// A scanned barcode.
#[derive(Debug, PartialEq, Eq)]
pub enum Barcode {
    /// Interleaved 2 of 5: a single line of digits.
    Interleaved2of5(String),
    /// International Article Number EAN13: a single line of digits.
    EAN13(String),
    /// Code 128: a single line of alphanumeric characters.
    Code128(String),
    /// Code 39: a single line of alphanumeric characters.
    Code39(String),
    /// QR code: lines of alphanumeric characters.
    QR(Vec<String>),
    /// Micro QR code: lines of alphanumeric characters.
    MicroQR(Vec<String>),
    /// Dot matrix code: lines of alphanumeric characters.
    DotMatrix(Vec<String>),
}

/// A scanned barcode as a mathematical value.
pub enum BarcodeView {
    Interleaved2of5(Seq<char>),
    EAN13(Seq<char>),
    Code128(Seq<char>),
    Code39(Seq<char>),
    QR(Seq<Seq<char>>),
    MicroQR(Seq<Seq<char>>),
    DotMatrix(Seq<Seq<char>>),
}

/// The lines of a barcode as sequences of characters.
pub open spec fn line_views(lines: Seq<String>) -> Seq<Seq<char>> {
    lines.map_values(|line: String| line@)
}

impl View for Barcode {
    type V = BarcodeView;

    open spec fn view(&self) -> BarcodeView {
        match *self {
            Barcode::Interleaved2of5(data) => BarcodeView::Interleaved2of5(data@),
            Barcode::EAN13(data) => BarcodeView::EAN13(data@),
            Barcode::Code128(data) => BarcodeView::Code128(data@),
            Barcode::Code39(data) => BarcodeView::Code39(data@),
            Barcode::QR(lines) => BarcodeView::QR(line_views(lines@)),
            Barcode::MicroQR(lines) => BarcodeView::MicroQR(line_views(lines@)),
            Barcode::DotMatrix(lines) => BarcodeView::DotMatrix(line_views(lines@)),
        }
    }
}

/// The lines of a barcode, each behind its index and a colon, separated by
/// line feeds: `0: first`, `1: second` and so on.
pub open spec fn numbered(lines: Seq<Seq<char>>) -> Seq<char>
    decreases lines.len(),
{
    if lines.len() == 0 {
        Seq::empty()
    } else {
        let index = (lines.len() - 1) as nat;
        let entry = decimal(index) + seq![':', ' '] + lines.last();
        if index == 0 {
            entry
        } else {
            numbered(lines.drop_last()) + seq!['\n'] + entry
        }
    }
}

impl BarcodeView {
    /// The barcode as a line of text for people: the name of its type, then
    /// its data, or its numbered lines where it has several.
    pub open spec fn text(self) -> Seq<char> {
        match self {
            BarcodeView::Interleaved2of5(data) => "interleaved2of5: "@ + data,
            BarcodeView::EAN13(data) => "EAN13: "@ + data,
            BarcodeView::Code128(data) => "Code128: "@ + data,
            BarcodeView::Code39(data) => "Code39: "@ + data,
            BarcodeView::QR(lines) => "QR: "@ + numbered(lines),
            BarcodeView::MicroQR(lines) => "Micro QR: "@ + numbered(lines),
            BarcodeView::DotMatrix(lines) => "Dot Matrix: "@ + numbered(lines),
        }
    }
}

/// Appends the numbered lines of a barcode to `text`.
fn push_numbered(text: &mut String, lines: &Vec<String>)
    ensures
        final(text)@ == old(text)@ + numbered(line_views(lines@)),
{
    let ghost all = line_views(lines@);
    let mut index: usize = 0;
    while index < lines.len()
        invariant
            index <= lines.len(),
            all == line_views(lines@),
            text@ == old(text)@ + numbered(all.take(index as int)),
        decreases lines.len() - index,
    {
        if index > 0 {
            text.push('\n');
        }
        push_decimal(text, index);
        text.push(':');
        text.push(' ');
        text.append(lines[index].as_str());
        index = index + 1;
        assert(all.take(index as int).drop_last() == all.take(index as int - 1));
    }
    assert(all.take(index as int) == all);
}

impl Barcode {
    /// Renders the barcode as text for people: the name of its type, then its
    /// data, or its numbered lines where it has several.
    pub fn to_text(&self) -> (text: String)
        ensures
            text@ == self@.text(),
    {
        match self {
            Barcode::Interleaved2of5(data) => "interleaved2of5: ".to_owned().concat(
                data.as_str(),
            ),
            Barcode::EAN13(data) => "EAN13: ".to_owned().concat(data.as_str()),
            Barcode::Code128(data) => "Code128: ".to_owned().concat(data.as_str()),
            Barcode::Code39(data) => "Code39: ".to_owned().concat(data.as_str()),
            Barcode::QR(lines) => {
                let mut text = "QR: ".to_owned();
                push_numbered(&mut text, lines);
                text
            },
            Barcode::MicroQR(lines) => {
                let mut text = "Micro QR: ".to_owned();
                push_numbered(&mut text, lines);
                text
            },
            Barcode::DotMatrix(lines) => {
                let mut text = "Dot Matrix: ".to_owned();
                push_numbered(&mut text, lines);
                text
            },
        }
    }
}

} // verus!
