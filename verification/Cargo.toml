[package]
name = "douyin_core"
version = "0.1.0"
edition = "2021"
publish = false

[dependencies]
rand = "0.8"
reqwest = { version = "0.12", default-features = false, features = ["stream"] }
serde = { version = "1", features = ["derive"] }
serde_json = "1"
dirs = "5"
rusqlite = { version = "0.31", features = ["bundled"] }
tokio = { version = "1", features = ["fs", "io-util", "time", "rt", "macros", "sync"] }
futures-util = "0.3"
uuid = { version = "1", features = ["v4"] }
log = "0.4"
parking_lot = "0.12"
thiserror = "1"
