//! Text rendering: bytes as characters, numbers as digits.

use vstd::prelude::*;

verus! {

/// `String::push` appends the given character to the end of the string.
pub assume_specification[ String::push ](text: &mut String, ch: char)
    ensures
        final(text)@ == old(text)@.push(ch),
;

/// The bytes of a line as text: each byte is the character with that code
/// point, with no multi-byte decoding.
pub open spec fn latin1(line: Seq<u8>) -> Seq<char> {
    line.map_values(|byte: u8| byte as char)
}

/// The character of a digit below ten.
pub open spec fn digit(value: nat) -> char
    recommends
        value < 10,
{
    (48 + value) as char
}

/// The decimal digits of a number, without leading zeros.
pub open spec fn decimal(number: nat) -> Seq<char>
    decreases number,
{
    if number < 10 {
        seq![digit(number)]
    } else {
        decimal(number / 10).push(digit(number % 10))
    }
}

/// The character of a hexadecimal digit, in upper case.
pub open spec fn hex_digit(value: nat) -> char
    recommends
        value < 16,
{
    if value < 10 {
        (48 + value) as char
    } else {
        (55 + value) as char
    }
}

/// The hexadecimal digits of a byte in upper case, without a leading zero.
pub open spec fn upper_hex(byte: u8) -> Seq<char> {
    if byte < 16 {
        seq![hex_digit(byte as nat)]
    } else {
        seq![hex_digit(byte as nat / 16), hex_digit(byte as nat % 16)]
    }
}

/// Appends the bytes of `line` to `text`, each as the character with that
/// code point.
pub fn push_latin1(text: &mut String, line: &[u8])
    ensures
        final(text)@ == old(text)@ + latin1(line@),
{
    let mut index: usize = 0;
    while index < line.len()
        invariant
            index <= line.len(),
            text@ == old(text)@ + latin1(line@.take(index as int)),
        decreases line.len() - index,
    {
        text.push(line[index] as char);
        index = index + 1;
    }
}

/// Appends the decimal digits of `number` to `text`.
pub fn push_decimal(text: &mut String, number: usize)
    ensures
        final(text)@ == old(text)@ + decimal(number as nat),
    decreases number,
{
    if number >= 10 {
        push_decimal(text, number / 10);
    }
    text.push((48u8 + (number % 10) as u8) as char);
}

/// Appends the hexadecimal digits of `byte` to `text`, in upper case and
/// without a leading zero.
pub fn push_upper_hex(text: &mut String, byte: u8)
    ensures
        final(text)@ == old(text)@ + upper_hex(byte),
{
    if byte >= 16 {
        text.push(hex_char(byte / 16));
    }
    text.push(hex_char(byte % 16));
}

/// The upper-case character of a hexadecimal digit.
fn hex_char(value: u8) -> (ch: char)
    requires
        value < 16,
    ensures
        ch == hex_digit(value as nat),
{
    if value < 10 {
        (48u8 + value) as char
    } else {
        (55u8 + value) as char
    }
}

} // verus!
