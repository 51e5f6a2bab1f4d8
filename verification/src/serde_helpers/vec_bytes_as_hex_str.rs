//! A list of byte strings as a list of hexadecimal texts.

use crate::serde_helpers::hex::{
    digits_of, from_hex_str, hex_text, reads, to_hex_str, HexError,
};
use vstd::prelude::*;

verus! {

/// The texts that stand for the byte strings, in order.
pub fn serialize(bytes: &Vec<Vec<u8>>) -> (texts: Vec<String>)
    ensures
        texts@.len() == bytes@.len(),
        forall|i: int|
            0 <= i < bytes@.len() ==> (#[trigger] texts@[i])@ == "0x"@ + hex_text(bytes@[i]@),
{
    let mut texts: Vec<String> = Vec::new();
    let mut i: usize = 0;
    while i < bytes.len()
        invariant
            i <= bytes.len(),
            texts@.len() == i,
            forall|j: int|
                0 <= j < i ==> (#[trigger] texts@[j])@ == "0x"@ + hex_text(bytes@[j]@),
        decreases bytes.len() - i,
    {
        texts.push(to_hex_str(bytes[i].as_slice()));
        i += 1;
    }
    texts
}

/// The byte strings that the texts stand for, in order; the error of the first text that
/// is refused, where one is.
pub fn deserialize(hex_strs: Vec<String>) -> (out: Result<Vec<Vec<u8>>, HexError>)
    ensures
        match out {
            Ok(bytes) => bytes@.len() == hex_strs@.len() && forall|i: int|
                0 <= i < hex_strs@.len() ==> reads(
                    digits_of(hex_strs@[i]@),
                    Ok(#[trigger] bytes@[i]),
                ),
            Err(error) => exists|i: int|
                0 <= i < hex_strs@.len() && reads(
                    digits_of((#[trigger] hex_strs@[i])@),
                    Err(error),
                ) && forall|j: int|
                    0 <= j < i ==> crate::serde_helpers::hex::is_hex(
                        digits_of((#[trigger] hex_strs@[j])@),
                    ),
        },
{
    let mut bytes: Vec<Vec<u8>> = Vec::new();
    let mut i: usize = 0;
    while i < hex_strs.len()
        invariant
            i <= hex_strs.len(),
            bytes@.len() == i,
            forall|j: int|
                0 <= j < i ==> reads(
                    digits_of(hex_strs@[j]@),
                    Ok(#[trigger] bytes@[j]),
                ),
        decreases hex_strs.len() - i,
    {
        match from_hex_str(hex_strs[i].as_str()) {
            Ok(one) => bytes.push(one),
            Err(error) => {
                assert(reads(digits_of(hex_strs@[i as int]@), Err(error)));
                assert forall|j: int| 0 <= j < i implies crate::serde_helpers::hex::is_hex(
                    digits_of((#[trigger] hex_strs@[j])@),
                ) by {
                    assert(reads(digits_of(hex_strs@[j]@), Ok(bytes@[j])));
                }
                return Err(error);
            },
        }
        i += 1;
    }
    Ok(bytes)
}

} // verus!
