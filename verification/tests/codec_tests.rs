use prpc::client;
use prpc::codec::{decode_message, encode_error, encode_message_to_vec};
use prpc::server::{Error, ProtoError};
use std::collections::BTreeMap;

fn envelope(message: &str) -> ProtoError {
    ProtoError::new(message.to_string())
}

#[test]
fn empty_envelope_is_the_empty_byte_sequence() {
    assert_eq!(encode_message_to_vec(&envelope("")), Vec::<u8>::new());
}

#[test]
fn envelope_is_one_string_field() {
    assert_eq!(encode_message_to_vec(&envelope("hi")), vec![0x0a, 0x02, b'h', b'i']);
}

#[test]
fn envelope_length_counts_bytes_not_characters() {
    assert_eq!(encode_message_to_vec(&envelope("é")), vec![0x0a, 0x02, 0xc3, 0xa9]);
}

#[test]
fn envelope_length_is_a_varint() {
    let message = "a".repeat(200);
    let bytes = encode_message_to_vec(&envelope(&message));
    assert_eq!(bytes.len(), 203);
    assert_eq!(&bytes[..3], &[0x0a, 0xc8, 0x01]);
    assert_eq!(&bytes[3..], message.as_bytes());
    let longer = "b".repeat(128);
    assert_eq!(&encode_message_to_vec(&envelope(&longer))[..3], &[0x0a, 0x80, 0x01]);
    let shorter = "c".repeat(127);
    assert_eq!(&encode_message_to_vec(&envelope(&shorter))[..2], &[0x0a, 0x7f]);
}

#[test]
fn envelope_round_trip() {
    for message in ["", "x", "Service not found: Z", "ünï cödé", &"long ".repeat(4000)] {
        let bytes = encode_message_to_vec(&envelope(message));
        let back = decode_message(&bytes).ok().unwrap();
        assert_eq!(back.message, message);
    }
}

#[test]
fn empty_payload_decodes_to_the_empty_envelope() {
    assert_eq!(decode_message(&[]).ok().unwrap().message, "");
}

#[test]
fn decode_skips_fields_it_does_not_know() {
    let bytes = [0x10, 0x07, 0x0a, 0x01, b'k'];
    assert_eq!(decode_message(&bytes).ok().unwrap().message, "k");
}

#[test]
fn decode_refuses_truncated_bytes() {
    match decode_message(&[0x0a, 0x05, b'h']) {
        Err(Error::DecodeError(cause)) => assert!(!cause.is_empty()),
        _ => panic!("expected a decode error"),
    }
}

#[test]
fn decode_refuses_text_that_is_not_utf8() {
    assert!(matches!(decode_message(&[0x0a, 0x01, 0xff]), Err(Error::DecodeError(_))));
}

#[test]
fn decode_refuses_a_field_of_the_wrong_kind() {
    assert!(matches!(decode_message(&[0x08, 0x01]), Err(Error::DecodeError(_))));
}

#[test]
fn client_reads_the_error_of_the_peer() {
    let bytes = encode_message_to_vec(&Error::BadRequest("no".to_string()).into_proto());
    match client::Error::from_envelope(&bytes) {
        client::Error::ServerError(envelope) => assert_eq!(envelope.message, "no"),
        _ => panic!("expected the peer's envelope"),
    }
}

#[test]
fn client_reports_bytes_that_hold_no_envelope() {
    assert!(matches!(client::Error::from_envelope(&[0x0a, 0x09]), client::Error::DecodeError(_)));
}

#[test]
fn client_error_messages() {
    assert_eq!(client::Error::DecodeError("bad".to_string()).message(), "bad");
    assert_eq!(client::Error::ServerError(envelope("denied")).message(), "denied");
    assert_eq!(client::Error::RpcError("timeout".to_string()).message(), "timeout");
}

#[test]
fn errors_travel_as_envelopes() {
    assert_eq!(
        encode_error(&Error::NotFound("Z".to_string())),
        encode_message_to_vec(&envelope("Service not found: Z"))
    );
    assert_eq!(encode_error(&Error::BadRequest("no".to_string())), vec![0x0a, 0x02, b'n', b'o']);
    assert_eq!(encode_error(&Error::DecodeError(String::new())), Vec::<u8>::new());
}

#[test]
fn client_reads_what_the_server_reported() {
    let errors = [
        Error::NotFound("Greeter.Missing".to_string()),
        Error::DecodeError("invalid wire type".to_string()),
        Error::BadRequest("no such user".to_string()),
    ];
    for error in errors {
        match client::Error::from_envelope(&encode_error(&error)) {
            client::Error::ServerError(envelope) => assert_eq!(envelope.message, error.message()),
            _ => panic!("expected the peer's envelope"),
        }
    }
}

#[test]
fn envelope_as_text_is_its_message() {
    assert_eq!(envelope("boom").to_string(), "boom");
    assert_eq!(ProtoError::default().message, "");
}

#[test]
fn envelope_is_the_message_of_one_string_of_the_primary_codec() {
    for message in ["", "hi", "Service not found: Z"] {
        let as_string = prpc::Message::encode_to_vec(&message.to_string());
        assert_eq!(encode_message_to_vec(&envelope(message)), as_string);
        let read: String = prpc::Message::decode(as_string.as_slice()).unwrap();
        assert_eq!(decode_message(&as_string).ok().unwrap().message, read);
    }
}

#[test]
fn alternate_forms_decode_to_the_same_value() {
    let mut request: BTreeMap<String, String> = BTreeMap::new();
    request.insert("name".to_string(), "x y".to_string());
    request.insert("id".to_string(), "7".to_string());
    let canonical = prpc::serde_json::to_vec(&request).unwrap();
    let from_canonical: BTreeMap<String, String> = prpc::serde_json::from_slice(&canonical).unwrap();
    let from_document: BTreeMap<String, String> =
        prpc::serde_json::from_slice(b"{ \"id\": \"7\", \"name\": \"x y\" }").unwrap();
    let from_query: BTreeMap<String, String> = prpc::serde_qs::from_bytes(b"name=x+y&id=7").unwrap();
    assert_eq!(from_canonical, request);
    assert_eq!(from_document, from_canonical);
    assert_eq!(from_query, from_canonical);
}
