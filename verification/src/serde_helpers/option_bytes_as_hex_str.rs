//! A byte string that may be absent, as a text that may be absent.

use crate::serde_helpers::hex::{
    digits_of, from_hex_str, hex_text, reads, to_hex_str, HexError,
};
use vstd::prelude::*;

verus! {

/// The text that stands for `bytes`, where there are any.
pub fn serialize(bytes: &Option<Vec<u8>>) -> (text: Option<String>)
    ensures
        match *bytes {
            Some(bytes) => text matches Some(text) && text@ == "0x"@ + hex_text(bytes@),
            None => text is None,
        },
{
    match bytes {
        Some(bytes) => Some(to_hex_str(bytes.as_slice())),
        None => None,
    }
}

/// The byte string that `hex_str` stands for, where there is a text.
pub fn deserialize(hex_str: Option<String>) -> (out: Result<Option<Vec<u8>>, HexError>)
    ensures
        match hex_str {
            Some(text) => match out {
                Ok(bytes) => bytes matches Some(bytes) && reads(
                    digits_of(text@),
                    Ok(bytes),
                ),
                Err(error) => reads(digits_of(text@), Err(error)),
            },
            None => out == Ok::<Option<Vec<u8>>, HexError>(None),
        },
{
    match hex_str {
        Some(hex_str) => {
            match from_hex_str(hex_str.as_str()) {
                Ok(bytes) => Ok(Some(bytes)),
                Err(error) => Err(error),
            }
        },
        None => Ok(None),
    }
}

} // verus!
