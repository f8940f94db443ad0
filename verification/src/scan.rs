//! Scan payload decoder: from the bytes that follow a scan to a barcode.
//!
//! After a scan the device sends one byte that tells the barcode type, then
//! the data in lines. A line feed ends a line, a carriage return ends the
//! data. Empty lines are dropped.

use vstd::prelude::*;
use crate::error::ScannerError;
use crate::text::{latin1, push_latin1};
use crate::{line_views, Barcode, BarcodeView};

verus! {

/// The byte that ends a line of scan data.
pub const END_OF_LINE: u8 = 0x0a;

/// The byte that ends the scan data.
pub const END_OF_DATA: u8 = 0x0d;

/// The byte that stands in the place of the barcode type when nothing was
/// scanned.
pub const NO_CODE: u8 = 0x00;

/// Type byte of an Interleaved 2 of 5 barcode.
pub const CODE_INTERLEAVED2OF5: u8 = 0x65;

/// Type byte of a Code 39 barcode.
pub const CODE_CODE39: u8 = 0x62;

/// Type byte of an EAN13 barcode.
pub const CODE_EAN13: u8 = 0x64;

/// Type byte of a Code 128 barcode.
pub const CODE_CODE128: u8 = 0x6a;

/// Type byte of a QR code.
pub const CODE_QR: u8 = 0x51;

/// Type byte of a dot matrix code.
pub const CODE_DOTMATRIX: u8 = 0x75;

/// The lines collected so far and the line in progress after `bytes` of scan
/// data, none of which ends the data: a line feed closes the line in
/// progress, which joins the collected lines unless it is empty; any other
/// byte extends the line in progress.
pub open spec fn assembled(bytes: Seq<u8>) -> (Seq<Seq<u8>>, Seq<u8>)
    decreases bytes.len(),
{
    if bytes.len() == 0 {
        (Seq::empty(), Seq::empty())
    } else {
        let (lines, line) = assembled(bytes.drop_last());
        if bytes.last() == END_OF_LINE {
            (closed(lines, line), Seq::empty())
        } else {
            (lines, line.push(bytes.last()))
        }
    }
}

/// The collected lines once the line in progress is closed: it joins them
/// unless it is empty.
pub open spec fn closed(lines: Seq<Seq<u8>>, line: Seq<u8>) -> Seq<Seq<u8>> {
    if line.len() > 0 {
        lines.push(line)
    } else {
        lines
    }
}

/// The lines of scan data whose bytes up to the carriage return are `bytes`.
pub open spec fn payload_lines(bytes: Seq<u8>) -> Seq<Seq<u8>> {
    closed(assembled(bytes).0, assembled(bytes).1)
}

/// The lines of a scan as text.
pub open spec fn texts(lines: Seq<Seq<u8>>) -> Seq<Seq<char>> {
    lines.map_values(|line: Seq<u8>| latin1(line))
}

/// What a scan of the given type with the given lines comes to: no barcode
/// where there are no lines; for a linear type the first line; for a matrix
/// type every line in order; a failure for an unknown type.
pub open spec fn decoded_scan(code: u8, lines: Seq<Seq<u8>>) -> Result<
    Option<BarcodeView>,
    ScannerError,
> {
    if lines.len() == 0 {
        Ok(None)
    } else if code == CODE_INTERLEAVED2OF5 {
        Ok(Some(BarcodeView::Interleaved2of5(latin1(lines[0]))))
    } else if code == CODE_CODE39 {
        Ok(Some(BarcodeView::Code39(latin1(lines[0]))))
    } else if code == CODE_EAN13 {
        Ok(Some(BarcodeView::EAN13(latin1(lines[0]))))
    } else if code == CODE_CODE128 {
        Ok(Some(BarcodeView::Code128(latin1(lines[0]))))
    } else if code == CODE_QR {
        Ok(Some(BarcodeView::QR(texts(lines))))
    } else if code == CODE_DOTMATRIX {
        Ok(Some(BarcodeView::DotMatrix(texts(lines))))
    } else {
        Err(ScannerError::UnsupportedBarcode { code })
    }
}

/// The lines of a scan as sequences of bytes.
pub open spec fn lines_view(lines: Seq<Vec<u8>>) -> Seq<Seq<u8>> {
    lines.map_values(|line: Vec<u8>| line@)
}

/// The outcome of a scan as a mathematical value.
pub open spec fn scan_view(scan: Result<Option<Barcode>, ScannerError>) -> Result<
    Option<BarcodeView>,
    ScannerError,
> {
    match scan {
        Ok(Some(barcode)) => Ok(Some(barcode@)),
        Ok(None) => Ok(None),
        Err(error) => Err(error),
    }
}

/// Renders a line of scan data as text.
pub fn line_text(line: &[u8]) -> (text: String)
    ensures
        text@ == latin1(line@),
{
    let mut text = String::new();
    push_latin1(&mut text, line);
    text
}

/// Renders every line of scan data as text.
pub fn render_lines(lines: &Vec<Vec<u8>>) -> (rendered: Vec<String>)
    ensures
        line_views(rendered@) == texts(lines_view(lines@)),
{
    let mut rendered: Vec<String> = Vec::new();
    let mut index: usize = 0;
    while index < lines.len()
        invariant
            index <= lines.len(),
            line_views(rendered@) == texts(lines_view(lines@).take(index as int)),
        decreases lines.len() - index,
    {
        let ghost before = rendered@;
        rendered.push(line_text(lines[index].as_slice()));
        index = index + 1;
        assert(line_views(rendered@) == line_views(before).push(
            latin1(lines@[index as int - 1]@),
        ));
    }
    rendered
}

/// Decodes the lines of a scan according to the byte that tells its type.
///
/// No lines are no barcode, whatever the type; with lines, an unknown type is
/// a failure.
pub fn decode_scan(code: u8, lines: &Vec<Vec<u8>>) -> (scan: Result<Option<Barcode>, ScannerError>)
    ensures
        scan_view(scan) == decoded_scan(code, lines_view(lines@)),
{
    if lines.len() == 0 {
        return Ok(None);
    }
    if code == CODE_INTERLEAVED2OF5 {
        Ok(Some(Barcode::Interleaved2of5(line_text(lines[0].as_slice()))))
    } else if code == CODE_CODE39 {
        Ok(Some(Barcode::Code39(line_text(lines[0].as_slice()))))
    } else if code == CODE_EAN13 {
        Ok(Some(Barcode::EAN13(line_text(lines[0].as_slice()))))
    } else if code == CODE_CODE128 {
        Ok(Some(Barcode::Code128(line_text(lines[0].as_slice()))))
    } else if code == CODE_QR {
        Ok(Some(Barcode::QR(render_lines(lines))))
    } else if code == CODE_DOTMATRIX {
        Ok(Some(Barcode::DotMatrix(render_lines(lines))))
    } else {
        Err(ScannerError::UnsupportedBarcode { code })
    }
}

/// Scan data without a line feed is one line, or none where it is empty.
pub proof fn lemma_lines_of_one_line(line: Seq<u8>)
    requires
        !line.contains(END_OF_LINE),
    ensures
        assembled(line) == (Seq::<Seq<u8>>::empty(), line),
        payload_lines(line) == if line.len() > 0 {
            seq![line]
        } else {
            Seq::<Seq<u8>>::empty()
        },
    decreases line.len(),
{
    if line.len() > 0 {
        lemma_lines_of_one_line(line.drop_last());
    }
}

/// A line feed splits scan data: the lines of what stands before it, then
/// the lines of what stands behind it.
pub proof fn lemma_lines_split(head: Seq<u8>, tail: Seq<u8>)
    ensures
        assembled(head + seq![END_OF_LINE] + tail) == (
            payload_lines(head) + assembled(tail).0,
            assembled(tail).1,
        ),
        payload_lines(head + seq![END_OF_LINE] + tail) == payload_lines(head) + payload_lines(
            tail,
        ),
    decreases tail.len(),
{
    let whole = head + seq![END_OF_LINE] + tail;
    if tail.len() == 0 {
        assert(whole.drop_last() == head);
    } else {
        assert(whole.drop_last() == head + seq![END_OF_LINE] + tail.drop_last());
        lemma_lines_split(head, tail.drop_last());
    }
}

/// An empty line in the middle of scan data is dropped: two line feeds in a
/// row split the data as one does.
pub proof fn lemma_empty_line_dropped(head: Seq<u8>, tail: Seq<u8>)
    ensures
        payload_lines(head + seq![END_OF_LINE, END_OF_LINE] + tail) == payload_lines(
            head + seq![END_OF_LINE] + tail,
        ),
{
    let once = head + seq![END_OF_LINE];
    assert(head + seq![END_OF_LINE, END_OF_LINE] + tail == once + seq![END_OF_LINE] + tail);
    lemma_lines_split(once, tail);
    lemma_lines_split(head, Seq::empty());
    lemma_lines_split(head, tail);
}

/// No line of scan data is empty, and none holds a line feed.
pub proof fn lemma_lines_are_proper(bytes: Seq<u8>)
    ensures
        forall|index: int|
            0 <= index < payload_lines(bytes).len() ==> (#[trigger] payload_lines(
                bytes,
            )[index]).len() > 0 && !payload_lines(bytes)[index].contains(END_OF_LINE),
        forall|index: int|
            0 <= index < assembled(bytes).0.len() ==> (#[trigger] assembled(
                bytes,
            ).0[index]).len() > 0 && !assembled(bytes).0[index].contains(END_OF_LINE),
        !assembled(bytes).1.contains(END_OF_LINE),
    decreases bytes.len(),
{
    if bytes.len() > 0 {
        lemma_lines_are_proper(bytes.drop_last());
    }
}

} // verus!
