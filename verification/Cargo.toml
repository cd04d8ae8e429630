[package]
name = "polymarket_cli"
version = "0.1.0"
edition = "2021"
publish = false

[dependencies]
alloy = { version = "1", default-features = false, features = ["std"] }
anyhow = "1"
clap = { version = "4", features = ["derive"] }
dotenv = "0.15"
env_logger = "0.11"
reqwest = { version = "0.12", default-features = false, features = ["json", "rustls-tls"] }
rust_decimal = "1"
serde_json = "1"
tempfile = "3"
tokio = { version = "1", features = ["full"] }
