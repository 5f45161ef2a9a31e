[package]
name = "ore_hq_server"
version = "0.1.0"
edition = "2021"
publish = false

[dependencies]
solana-sdk = "1.18"
drillx = "2"
ore-api = "~2.1"
ore-utils = "~2.1"
tokio = { version = "1", features = ["full"] }
axum = { version = "0.7", features = ["ws"] }
axum-extra = { version = "0.9", features = ["typed-header"] }
futures = "0.3"
base64 = "0.22"
bincode = "1.3"
clap = { version = "4", features = ["derive"] }
serde = { version = "1", features = ["derive"] }
rand = "0.8"
tracing = "0.1"
