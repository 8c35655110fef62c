[package]
name = "macula_console"
version = "0.1.0"
edition = "2021"
publish = false

[dependencies]
anyhow = "1"
async-nats = "0.38"
base64 = "0.22"
clap = { version = "4", features = ["derive"] }
crossterm = "0.28"
ed25519-dalek = { version = "2", features = ["rand_core"] }
futures = "0.3"
rand = "0.8"
ratatui = "0.29"
serde = { version = "1", features = ["derive"] }
serde_json = "1"
serde_yaml = "0.9"
tokio = { version = "1", features = ["full"] }
tracing = "0.1"
tracing-subscriber = { version = "0.3", features = ["env-filter"] }
