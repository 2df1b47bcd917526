[package]
name = "webgrab"
version = "0.1.0"
edition = "2021"
publish = false

[dependencies]
anyhow = "1"
chrono = "0.4"
clap = "4"
futures = "0.3"
reqwest = { version = "0.12", default-features = false }
tl = "0.7"
tokio = { version = "1", features = ["rt-multi-thread", "macros", "fs", "io-util"] }
tracing = "0.1"
tracing-subscriber = "0.3"
