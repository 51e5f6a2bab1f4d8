//! Byte strings as hexadecimal text, the form in which the alternate codec carries them.

pub mod bytes_as_hex_str;
pub mod hex;
pub mod option_bytes_as_hex_str;
pub mod vec_bytes_as_hex_str;
