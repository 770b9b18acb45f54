[package]
name = "librecollect"
version = "0.1.0"
edition = "2021"
publish = false

[dependencies]
anyhow = "1"
chrono = { version = "0.4", features = ["serde"] }
clap = { version = "3.2", features = ["derive"] }
cron = "*"
dialoguer = "*"
dirs = "*"
log = "0.4"
notify = "4"
notify-rust = "4"
pretty_env_logger = "*"
serde = { version = "1", features = ["derive"] }
serde_json = "1"
signal-hook = "0.3"
thiserror = "1"
