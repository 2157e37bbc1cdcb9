[package]
name = "mjpg_multiplex"
version = "0.1.0"
edition = "2021"
publish = false

[dependencies]
anyhow = "1"
clap = { version = "4", features = ["derive", "env"] }
inotify = "*"
thiserror = "*"
tokio = { version = "1", features = ["fs", "io-std", "io-util", "macros", "rt", "time"] }
tokio-stream = "*"
