//! Hexadecimal text: what it is, and the two outside functions that write and read it.

use vstd::prelude::*;
use vstd::slice::slice_subrange;
use vstd::string::StringSliceAdditionalSpecFns;
use vstd::utf8::encode_utf8;

verus! {

/// Why a text is not the hexadecimal form of a byte string.
#[derive(Clone, Copy, Debug, PartialEq, Eq, Structural)]
pub enum HexError {
    /// The byte `c`, at position `index`, is no hexadecimal digit.
    InvalidHexCharacter { c: char, index: usize },
    /// The text has an odd number of digits.
    OddLength,
    /// The text does not have the length of the container it was to fill. A byte string
    /// of free length is never refused for this.
    InvalidStringLength,
}

/// The lower-case hexadecimal digit of a value below sixteen.
pub open spec fn digit_of(value: int) -> char {
    if value < 10 {
        (0x30 + value) as char
    } else {
        (0x61 + value - 10) as char
    }
}

/// The lower-case hexadecimal form of a byte string: two digits to a byte, the high one
/// first.
pub open spec fn hex_text(bytes: Seq<u8>) -> Seq<char> {
    Seq::new(
        2 * bytes.len(),
        |i: int|
            if i % 2 == 0 {
                digit_of(bytes[i / 2] as int / 16)
            } else {
                digit_of(bytes[i / 2] as int % 16)
            },
    )
}

/// Whether the byte is a hexadecimal digit, of either case.
pub open spec fn is_hex_digit(b: u8) -> bool {
    (0x30 <= b <= 0x39) || (0x41 <= b <= 0x46) || (0x61 <= b <= 0x66)
}

/// The value of a hexadecimal digit.
pub open spec fn digit_value(b: u8) -> int {
    if 0x30 <= b <= 0x39 {
        b - 0x30
    } else if 0x41 <= b <= 0x46 {
        b - 0x41 + 10
    } else {
        b - 0x61 + 10
    }
}

/// Whether the text is the hexadecimal form of a byte string: an even number of digits.
pub open spec fn is_hex(text: Seq<u8>) -> bool {
    &&& text.len() % 2 == 0
    &&& forall|i: int| 0 <= i < text.len() ==> is_hex_digit(#[trigger] text[i])
}

/// The byte string that a hexadecimal text stands for.
pub open spec fn hex_bytes(text: Seq<u8>) -> Seq<u8> {
    Seq::new(
        text.len() / 2,
        |i: int| (digit_value(text[2 * i]) * 16 + digit_value(text[2 * i + 1])) as u8,
    )
}

/// Whether `error` is what refuses `text`: an odd length is reported before anything
/// else, and otherwise the first byte that is no digit, with its position.
pub open spec fn refuses(text: Seq<u8>, error: HexError) -> bool {
    if text.len() % 2 != 0 {
        error == HexError::OddLength
    } else {
        error matches HexError::InvalidHexCharacter { c, index } && index < text.len()
            && !is_hex_digit(text[index as int]) && c == text[index as int] as char && forall|
            j: int,
        | 0 <= j < index ==> is_hex_digit(#[trigger] text[j])
    }
}

/// What reading a hexadecimal text gives: its bytes, or the error that refuses it.
pub open spec fn reads(text: Seq<u8>, out: Result<Vec<u8>, HexError>) -> bool {
    match out {
        Ok(bytes) => is_hex(text) && bytes@ == hex_bytes(text),
        Err(error) => !is_hex(text) && refuses(text, error),
    }
}

/// The text without its leading `0x` marks, however many there are.
pub open spec fn trim_marks(text: Seq<u8>) -> Seq<u8>
    decreases text.len(),
{
    if text.len() >= 2 && text[0] == 0x30 && text[1] == 0x78 {
        trim_marks(text.skip(2))
    } else {
        text
    }
}

/// The digits of a text: its bytes, without the leading `0x` marks.
pub open spec fn digits_of(text: Seq<char>) -> Seq<u8> {
    trim_marks(encode_utf8(text))
}

/// The `Display` form of `hex_fmt::HexFmt` without width or precision: every byte, as two
/// lower-case hexadecimal digits.
#[verifier::external_body]
pub(crate) fn format_hex(bytes: &[u8]) -> (text: String)
    ensures
        text@ == hex_text(bytes@),
{
    format!("{}", hex_fmt::HexFmt(bytes))
}

/// `hex::decode`: the bytes of a text of an even number of hexadecimal digits, of either
/// case. A text of odd length is refused as such; any other by its first byte that is no
/// digit.
#[verifier::external_body]
pub(crate) fn decode_hex(text: &[u8]) -> (out: Result<Vec<u8>, HexError>)
    ensures
        reads(text@, out),
{
    match hex::decode(text) {
        Ok(bytes) => Ok(bytes),
        Err(hex::FromHexError::InvalidHexCharacter { c, index }) => Err(
            HexError::InvalidHexCharacter { c, index },
        ),
        Err(hex::FromHexError::OddLength) => Err(HexError::OddLength),
        Err(hex::FromHexError::InvalidStringLength) => Err(HexError::InvalidStringLength),
    }
}

/// Writes a byte string as hexadecimal text, marked by a leading `0x`.
pub fn to_hex_str(bytes: &[u8]) -> (text: String)
    ensures
        text@ == "0x"@ + hex_text(bytes@),
{
    let digits = format_hex(bytes);
    let mut text = String::from_str("0x");
    text.append(digits.as_str());
    text
}

/// Reads a byte string from hexadecimal text, with or without leading `0x` marks.
pub fn from_hex_str(hex_str: &str) -> (out: Result<Vec<u8>, HexError>)
    ensures
        reads(digits_of(hex_str@), out),
{
    let text = hex_str.as_bytes();
    let mut start: usize = 0;
    assert(text@.skip(0) =~= text@);
    while text.len() - start >= 2 && text[start] == 0x30 && text[start + 1] == 0x78
        invariant
            start <= text.len(),
            trim_marks(text@) == trim_marks(text@.skip(start as int)),
        decreases text.len() - start,
    {
        assert(text@.skip(start as int).skip(2) =~= text@.skip(start + 2));
        start += 2;
    }
    let digits = slice_subrange(text, start, text.len());
    assert(digits@ =~= text@.skip(start as int));
    decode_hex(digits)
}

/// A digit stands for the value it was written for.
proof fn lemma_digit(value: int)
    requires
        0 <= value < 16,
    ensures
        '\0' <= digit_of(value) <= '\u{7f}',
        is_hex_digit(digit_of(value) as u8),
        digit_of(value) as u8 != 0x78,
        digit_value(digit_of(value) as u8) == value,
{
}

/// Reading gives back what writing wrote: the text that `to_hex_str` writes for a byte
/// string is hexadecimal once its mark is taken off, and stands for that byte string.
pub proof fn lemma_hex_round_trip(bytes: Seq<u8>)
    ensures
        is_hex(digits_of("0x"@ + hex_text(bytes))),
        hex_bytes(digits_of("0x"@ + hex_text(bytes))) == bytes,
{
    reveal_strlit("0x");
    let text = "0x"@ + hex_text(bytes);
    let raw = encode_utf8(text);
    assert forall|i: int| 0 <= i < text.len() implies '\0' <= #[trigger] text[i] <= '\u{7f}' by {
        if i >= 2 {
            assert(text[i] == hex_text(bytes)[i - 2]);
            lemma_digit(bytes[(i - 2) / 2] as int / 16);
            lemma_digit(bytes[(i - 2) / 2] as int % 16);
        }
    }
    vstd::utf8::is_ascii_chars_encode_utf8(text);
    assert(raw[0] == text[0] as u8);
    assert(raw[1] == text[1] as u8);
    let digits = raw.skip(2);
    assert forall|i: int| 0 <= i < digits.len() implies is_hex_digit(#[trigger] digits[i])
        && digits[i] != 0x78 && digits[i] == hex_text(bytes)[i] as u8 by {
        assert(digits[i] == raw[i + 2]);
        assert(raw[i + 2] == text[i + 2] as u8);
        assert(text[i + 2] == hex_text(bytes)[i]);
        lemma_digit(bytes[i / 2] as int / 16);
        lemma_digit(bytes[i / 2] as int % 16);
    }
    assert(trim_marks(raw) == trim_marks(digits));
    assert(trim_marks(digits) == digits) by {
        if digits.len() >= 2 {
            assert(digits[1] != 0x78);
        }
    }
    assert(digits.len() == 2 * bytes.len());
    assert forall|i: int| 0 <= i < bytes.len() implies hex_bytes(digits)[i] == bytes[i] by {
        lemma_digit(bytes[i] as int / 16);
        lemma_digit(bytes[i] as int % 16);
        assert(digits[2 * i] == hex_text(bytes)[2 * i] as u8);
        assert(digits[2 * i + 1] == hex_text(bytes)[2 * i + 1] as u8);
        assert((2 * i) / 2 == i && (2 * i + 1) / 2 == i);
        assert((2 * i) % 2 == 0 && (2 * i + 1) % 2 == 1);
    }
    assert(hex_bytes(digits) =~= bytes);
}

} // verus!
