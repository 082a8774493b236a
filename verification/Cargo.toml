[package]
name = "quicduck"
version = "0.1.0"
edition = "2021"
publish = false

[dependencies]
anyhow = "=1.0.104"
clap = { version = "4", features = ["derive"] }
env_logger = "0.11"
log = "0.4"
quiche = { version = "=0.22.0", default-features = false }
rcgen = "=0.12.1"
ring = "=0.17.14"
tokio = { version = "1", features = ["full"] }
