use prpc::serde_helpers::hex::HexError;
use prpc::serde_helpers::{bytes_as_hex_str, option_bytes_as_hex_str, vec_bytes_as_hex_str};

#[test]
fn bytes_are_written_in_lower_case_with_a_mark() {
    assert_eq!(bytes_as_hex_str::serialize(&vec![0x0a, 0x1b, 0xff, 0x00]), "0x0a1bff00");
    assert_eq!(bytes_as_hex_str::serialize(&vec![]), "0x");
}

#[test]
fn long_byte_strings_are_written_in_full() {
    let bytes: Vec<u8> = (0..=255).collect();
    let text = bytes_as_hex_str::serialize(&bytes);
    assert_eq!(text.len(), 2 + 512);
    assert!(text.starts_with("0x000102"));
    assert!(text.ends_with("fdfeff"));
}

#[test]
fn text_is_read_with_or_without_mark() {
    assert_eq!(bytes_as_hex_str::deserialize("0x0a1b"), Ok(vec![0x0a, 0x1b]));
    assert_eq!(bytes_as_hex_str::deserialize("0a1b"), Ok(vec![0x0a, 0x1b]));
    assert_eq!(bytes_as_hex_str::deserialize("0x"), Ok(vec![]));
    assert_eq!(bytes_as_hex_str::deserialize(""), Ok(vec![]));
}

#[test]
fn text_is_read_in_either_case() {
    assert_eq!(bytes_as_hex_str::deserialize("0xAbCdEf"), Ok(vec![0xab, 0xcd, 0xef]));
}

#[test]
fn every_leading_mark_is_taken_off() {
    assert_eq!(bytes_as_hex_str::deserialize("0x0x12"), Ok(vec![0x12]));
    assert_eq!(bytes_as_hex_str::deserialize("0x0x0x"), Ok(vec![]));
}

#[test]
fn a_mark_in_upper_case_is_no_mark() {
    assert_eq!(
        bytes_as_hex_str::deserialize("0X12"),
        Err(HexError::InvalidHexCharacter { c: 'X', index: 1 })
    );
}

#[test]
fn odd_length_is_refused() {
    assert_eq!(bytes_as_hex_str::deserialize("0x123"), Err(HexError::OddLength));
    assert_eq!(bytes_as_hex_str::deserialize("0xg"), Err(HexError::OddLength));
}

#[test]
fn the_first_byte_that_is_no_digit_is_reported() {
    assert_eq!(
        bytes_as_hex_str::deserialize("0x12g4z6"),
        Err(HexError::InvalidHexCharacter { c: 'g', index: 2 })
    );
    assert_eq!(
        bytes_as_hex_str::deserialize("12 4"),
        Err(HexError::InvalidHexCharacter { c: ' ', index: 2 })
    );
}

#[test]
fn hex_round_trip() {
    let samples: Vec<Vec<u8>> = vec![vec![], vec![0], vec![0x0f, 0xf0], (0..=255).collect()];
    for bytes in samples {
        let text = bytes_as_hex_str::serialize(&bytes);
        assert_eq!(bytes_as_hex_str::deserialize(&text), Ok(bytes));
    }
}

#[test]
fn lists_are_written_and_read_in_order() {
    let bytes = vec![vec![0x01], vec![], vec![0xab, 0xcd]];
    let texts = vec_bytes_as_hex_str::serialize(&bytes);
    assert_eq!(texts, vec!["0x01", "0x", "0xabcd"]);
    assert_eq!(vec_bytes_as_hex_str::deserialize(texts), Ok(bytes));
    assert_eq!(vec_bytes_as_hex_str::deserialize(vec![]), Ok(vec![]));
}

#[test]
fn a_list_is_refused_by_its_first_bad_text() {
    let texts = vec!["0x01".to_string(), "0x1".to_string(), "zz".to_string()];
    assert_eq!(vec_bytes_as_hex_str::deserialize(texts), Err(HexError::OddLength));
    let texts = vec!["zz".to_string(), "0x1".to_string()];
    assert_eq!(
        vec_bytes_as_hex_str::deserialize(texts),
        Err(HexError::InvalidHexCharacter { c: 'z', index: 0 })
    );
}

#[test]
fn absent_bytes_are_absent_text() {
    assert_eq!(option_bytes_as_hex_str::serialize(&None), None);
    assert_eq!(option_bytes_as_hex_str::deserialize(None), Ok(None));
}

#[test]
fn present_bytes_are_written_and_read() {
    assert_eq!(option_bytes_as_hex_str::serialize(&Some(vec![0xde, 0xad])), Some("0xdead".to_string()));
    assert_eq!(option_bytes_as_hex_str::deserialize(Some("0xdead".to_string())), Ok(Some(vec![0xde, 0xad])));
    assert_eq!(option_bytes_as_hex_str::deserialize(Some("0xdea".to_string())), Err(HexError::OddLength));
}
