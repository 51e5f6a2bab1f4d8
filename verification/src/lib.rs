//! Typed bindings and request routing for a protobuf-style unary RPC protocol.
//!
//! A service is described by a schema ([`schema`]). From it the generators ([`build`])
//! write the source of a client, with one typed call per method, and of a server: the
//! business trait and the dispatcher that finds the method a request names. Client and
//! server find each other by route keys ([`path`]). At run time a composition of named
//! services ([`server`]) sends each request to the service that its path names, and a
//! method table ([`dispatch`]) decides how a request is decoded and its response encoded.
//! Errors cross from server to client in an envelope ([`codec`], [`client`]).
//!
//! Generated code reaches the codecs through this crate: the primary codec as
//! [`Message`], the structured documents as [`serde_json`] and the flat pairs as
//! [`serde_qs`].

pub use prost::Message;
pub use serde_json;
pub use serde_qs;

pub mod build;
pub mod client;
pub mod codec;
pub mod dispatch;
pub mod path;
pub mod schema;
pub mod serde_helpers;
pub mod server;
pub mod text;
