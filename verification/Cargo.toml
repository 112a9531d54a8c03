[package]
name = "async_downloader"
version = "0.1.0"
edition = "2021"
publish = false

[dependencies]
async-channel = "=2.5.0"
egui = { version = "=0.37.0", default-features = false }
futures-util = "0.3"
iced = { version = "=0.14.0", default-features = false, features = ["tokio", "x11"] }
reqwest = { version = "=0.13.5", features = ["stream"] }
sha2 = "=0.11.1"
tokio = { version = "=1.54.1", features = ["fs", "io-util", "net", "rt-multi-thread", "sync", "time"] }
tokio-stream = { version = "=0.1.19", features = ["sync"] }
