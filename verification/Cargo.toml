[package]
name = "fehler"
version = "0.1.0"
edition = "2021"
publish = false

[dependencies]
syn = { version = "1", features = ["full", "fold", "extra-traits"] }
quote = "1"
proc-macro2 = "1"
synstructure = "0.12"
futures-core = "0.3"
