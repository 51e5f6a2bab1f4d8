//! The generators: from a service schema to the source of its client and server bindings.

pub mod client;
pub mod server;
