[package]
name = "status_blocks"
version = "0.1.0"
edition = "2021"
publish = false

[dependencies]
crossbeam-channel = "0.5"
serde = "1"
serde_derive = "1"
