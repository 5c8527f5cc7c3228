[package]
name = "speaker_bridge"
version = "0.1.0"
edition = "2021"
publish = false

[dependencies]
anyhow = "1"
futures-util = "0.3"
tracing = "0.1"
wasapi = "0.22"
