[package]
name = "manger"
version = "0.1.0"
edition = "2021"
publish = false

[dependencies]
utf8_slice = "*"
either = "1"
az = "1"
thiserror = "1"
syn = { version = "1", features = ["full", "extra-traits"] }
quote = "1"
proc-macro2 = "1"
