[package]
name = "keyless_pool"
version = "0.1.0"
edition = "2021"
publish = false

[dependencies]
anyhow = "1"
arc-swap = "1"
async-trait = "0.1"
flume = "0.11"
futures-util = "0.3"
log = "0.4"
slog = "2"
tokio = { version = "1", features = ["sync", "rt", "rt-multi-thread", "macros", "net", "io-util", "time"] }
uuid = "1"
