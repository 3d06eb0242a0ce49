[package]
name = "sfu_kit"
version = "0.1.0"
edition = "2021"
publish = false

[dependencies]
str0m = "0.18"
anyhow = "1"
prometheus = "*"
tracing = "*"
tokio = { version = "1", features = ["net", "rt", "rt-multi-thread", "macros", "time", "sync", "signal"] }
rust-dominant-speaker = "*"
