[package]
name = "sleigh"
version = "0.1.0"
edition = "2021"
publish = false

[dependencies]
byteorder = "1"
proc-macro2 = "0.4"
quote = "0.6"
serde = "1"
serde_json = "1"
sled = "0.24"
syn = "0.15"

[dev-dependencies]
tempfile = "3"
