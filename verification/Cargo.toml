[package]
name = "rust_bytes"
version = "0.1.0"
edition = "2021"
publish = false

[dependencies]
rayon = "1"
tokio = { version = "1", features = ["rt-multi-thread", "sync", "macros"] }
color-eyre = "0.6"
ulid = "1"
