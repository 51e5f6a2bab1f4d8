//! The client side: the three kinds of failure that a call can end in.

use crate::codec::{decode_message, envelope_bytes, envelope_read};
use crate::server::ProtoError;
use vstd::prelude::*;

verus! {

/// Why a call gave no response.
#[derive(Debug)]
pub enum Error {
    /// What the peer sent could not be decoded; holds the cause.
    DecodeError(String),
    /// The peer reported a failure; holds its envelope.
    ServerError(ProtoError),
    /// The transport failed; holds its message.
    RpcError(String),
}

impl Error {
    /// The message of the failure: the cause, the message of the peer's envelope, or the
    /// message of the transport.
    pub open spec fn message_text(self) -> Seq<char> {
        match self {
            Error::DecodeError(cause) => cause@,
            Error::ServerError(envelope) => envelope@,
            Error::RpcError(message) => message@,
        }
    }

    /// The message of the failure.
    pub fn message(&self) -> (text: String)
        ensures
            text@ == self.message_text(),
    {
        match self {
            Error::DecodeError(cause) => cause.clone(),
            Error::ServerError(envelope) => envelope.message.clone(),
            Error::RpcError(message) => message.clone(),
        }
    }

    /// The failure that the peer reported with the bytes `data`: the envelope that they
    /// hold, or a decode failure where they hold none.
    pub fn from_envelope(data: &[u8]) -> (error: Error)
        ensures
            match envelope_read(data@) {
                Some(message) => error matches Error::ServerError(envelope) && envelope@
                    == message,
                None => error is DecodeError,
            },
            forall|message: Seq<char>|
                data@ == envelope_bytes(message) ==> (error matches Error::ServerError(envelope)
                    && envelope@ == message),
    {
        match decode_message(data) {
            Ok(envelope) => Error::ServerError(envelope),
            Err(e) => Error::DecodeError(e.message()),
        }
    }
}

} // verus!
