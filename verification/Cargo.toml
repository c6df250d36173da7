[package]
name = "kronos"
version = "0.1.0"
edition = "2021"
publish = false

[dependencies]
anyhow = "*"
chrono = "*"
clap = { version = "*", features = ["derive"] }
crossterm = "*"
directories = "*"
notify-rust = "*"
ratatui = "*"
serde = { version = "*", features = ["derive"] }
serde_json = "*"
tachyonfx = "*"
thiserror = "*"
tokio = { version = "*", features = ["net", "rt-multi-thread", "io-util", "sync", "macros"] }
toml = "*"
tracing = "*"
