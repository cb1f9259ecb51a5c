[package]
name = "dynasmrt"
version = "0.1.0"
edition = "2021"
publish = false

[dependencies]
byteorder = "=1.5.0"
syn = { version = "=2.0.119", features = ["full", "extra-traits"] }
proc-macro2 = "=1.0.107"
