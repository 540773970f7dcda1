[package]
name = "reachy_mini_rust"
version = "0.1.0"
edition = "2021"
publish = false

[dependencies]
rand = "*"
num_cpus = "*"
tokio = { version = "*", features = ["rt-multi-thread", "time", "sync", "macros"] }
serde = { version = "*", features = ["derive"] }
serde_json = "*"
serde_yaml = "*"
thiserror = "*"
anyhow = "*"
log = "*"
env_logger = "*"
chrono = "*"
