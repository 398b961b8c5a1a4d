[package]
name = "kugou_tui"
version = "0.1.0"
edition = "2021"
publish = false

[dependencies]
anyhow = "=1.0.104"
base64 = "=0.22.1"
clap = { version = "=4.6.7", features = ["derive", "env"] }
crossbeam-channel = "=0.5.17"
ratatui = "=0.30.2"
reqwest = { version = "=0.12.28", default-features = false, features = ["json"] }
rodio = { version = "=0.22.2", default-features = false }
serde = { version = "=1.0.229", features = ["derive"] }
serde_json = "=1.0.154"
stream-download = { version = "*", default-features = false }
thiserror = "=2.0.21"
tokio = { version = "=1.54.1", features = ["rt-multi-thread", "time", "fs", "io-util"] }
zbus = { version = "=5.19.0", default-features = false, features = ["tokio"] }
