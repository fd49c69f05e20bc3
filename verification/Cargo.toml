[package]
name = "gen_stream"
version = "0.2.0"
edition = "2021"
publish = false

[dependencies]
futures-core = "0.3"
pin-utils = "0.1"
