[package]
name = "smcmanager"
version = "0.1.0"
edition = "2021"
publish = false

[dependencies]
toml = "*"
serde = { version = "*", features = ["derive"] }
serde_json = "*"
anyhow = "*"
clap = "*"
tokio = { version = "*", features = ["rt-multi-thread", "macros", "process", "io-util"] }
walkdir = "*"
fs_extra = "*"
prettytable-rs = "*"
human-panic = "*"
