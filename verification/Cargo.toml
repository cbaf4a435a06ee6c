[package]
name = "watch_cycle"
version = "0.1.0"
edition = "2021"
publish = false

[dependencies]
chrono = "0.4"
clap = { version = "4", features = ["derive"] }
color-eyre = "0.6"
dissimilar = "1"
humantime = "2"
serde_with = "3"
tokio = { version = "1", features = ["process", "sync", "time", "rt", "macros"] }
