[package]
name = "prpc"
version = "0.1.0"
edition = "2021"
publish = false

[dependencies]
anyhow = "1"
derive_more = { version = "1", features = ["display"] }
hex = "0.4"
hex_fmt = "0.3"
parity-scale-codec = "3"
proc-macro2 = "1"
prost = "0.13"
quote = "1"
serde = { version = "1", features = ["derive"] }
serde_json = "1"
serde_qs = "*"
syn = { version = "2", features = ["full"] }
template-quote = "*"
