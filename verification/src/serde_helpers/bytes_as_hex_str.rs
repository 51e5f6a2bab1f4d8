//! A byte string as one hexadecimal text.

use crate::serde_helpers::hex::{
    digits_of, from_hex_str, hex_text, reads, to_hex_str, HexError,
};
use vstd::prelude::*;

verus! {

/// The text that stands for `bytes`: `0x`, then its lower-case hexadecimal form.
pub fn serialize(bytes: &Vec<u8>) -> (text: String)
    ensures
        text@ == "0x"@ + hex_text(bytes@),
{
    to_hex_str(bytes.as_slice())
}

/// The byte string that `hex_str` stands for, with or without leading `0x` marks.
pub fn deserialize(hex_str: &str) -> (out: Result<Vec<u8>, HexError>)
    ensures
        reads(digits_of(hex_str@), out),
{
    from_hex_str(hex_str)
}

} // verus!
