//! The primary codec, as far as the error envelope needs it: a message of one string
//! field, in the Protocol Buffers wire format.

use crate::server::{Error, ProtoError};
use vstd::prelude::*;
use vstd::utf8::encode_utf8;

verus! {

/// The error with which `prost` refuses a byte sequence.
#[verifier::external_type_specification]
#[verifier::external_body]
pub struct ExDecodeError(prost::DecodeError);

/// A number in the variable-length format of the wire: seven bits to a byte, the lowest
/// first, each byte but the last marked by its high bit.
pub open spec fn varint(n: nat) -> Seq<u8>
    decreases n,
{
    if n < 128 {
        seq![n as u8]
    } else {
        seq![(n % 128 + 128) as u8] + varint(n / 128)
    }
}

/// The bytes of an envelope that carries `message`.
///
/// An empty message is the empty byte sequence. Any other is one field: its key (field
/// number 1, of the length-delimited kind), the length of the message in bytes, and the
/// message in UTF-8.
pub open spec fn envelope_bytes(message: Seq<char>) -> Seq<u8> {
    let body = encode_utf8(message);
    if body.len() == 0 {
        Seq::empty()
    } else {
        seq![0x0au8] + varint(body.len()) + body
    }
}

/// The message that `prost` reads from `data` as an envelope, or `None` where it refuses
/// the bytes.
pub uninterp spec fn envelope_read(data: Seq<u8>) -> Option<Seq<char>>;

/// `prost::Message::encoded_len`, of a string as a message of one string field: the
/// number of bytes that encoding it writes.
#[verifier::external_body]
fn message_encoded_len(message: &String) -> (len: usize)
    ensures
        len == envelope_bytes(message@).len(),
{
    prost::Message::encoded_len(message)
}

/// `prost::Message::encode_raw`, of a string as a message of one string field: appends
/// the encoding to `buf`. An empty string writes nothing; any other writes the key byte
/// `0x0a`, the byte length as a varint, and the bytes of the string.
#[verifier::external_body]
fn message_encode_raw(message: &String, buf: &mut Vec<u8>)
    ensures
        final(buf)@ == old(buf)@ + envelope_bytes(message@),
{
    prost::Message::encode_raw(message, buf)
}

/// `prost::Message::decode`, of a string as a message of one string field. What it reads
/// depends on the bytes alone. It reads back what encoding wrote: bytes that are the
/// encoding of a message decode to that message.
#[verifier::external_body]
fn message_decode(data: &[u8]) -> (out: Result<String, prost::DecodeError>)
    ensures
        out matches Ok(read) ==> envelope_read(data@) == Some(read@),
        out is Err ==> envelope_read(data@) is None,
        forall|message: Seq<char>|
            data@ == envelope_bytes(message) ==> out is Ok && out->Ok_0@ == message,
{
    <String as prost::Message>::decode(data)
}

/// The `Display` text of a `prost::DecodeError`.
#[verifier::external_body]
fn decode_error_text(error: &prost::DecodeError) -> (text: String) {
    error.to_string()
}

/// Encodes an envelope with the primary codec.
pub fn encode_message_to_vec(msg: &ProtoError) -> (buf: Vec<u8>)
    ensures
        buf@ == envelope_bytes(msg@),
{
    let mut buf = Vec::with_capacity(message_encoded_len(&msg.message));
    message_encode_raw(&msg.message, &mut buf);
    assert(buf@ =~= envelope_bytes(msg@));
    buf
}

/// Decodes an envelope with the primary codec.
///
/// The result depends on the bytes alone: the envelope that the codec reads from them, or
/// `DecodeError` where it refuses them. The bytes of an encoded envelope are never
/// refused, and give that envelope back; the empty byte sequence is the envelope with the
/// empty message.
pub fn decode_message(data: &[u8]) -> (out: Result<ProtoError, Error>)
    ensures
        match out {
            Ok(envelope) => envelope_read(data@) == Some(envelope@),
            Err(e) => envelope_read(data@) is None && e is DecodeError,
        },
        forall|message: Seq<char>|
            data@ == envelope_bytes(message) ==> (out matches Ok(envelope) && envelope@
                == message),
{
    match message_decode(data) {
        Ok(message) => Ok(ProtoError::new(message)),
        Err(e) => Err(Error::DecodeError(decode_error_text(&e))),
    }
}

/// Encodes an error for its way back to the caller: as its envelope, with the primary
/// codec, whichever codec served the request.
pub fn encode_error(error: &Error) -> (buf: Vec<u8>)
    ensures
        buf@ == envelope_bytes(error.message_text()),
{
    encode_message_to_vec(&error.into_proto())
}

} // verus!
