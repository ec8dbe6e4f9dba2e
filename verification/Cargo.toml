[package]
name = "psup"
version = "0.1.0"
edition = "2021"
publish = false

[dependencies]
anyhow = "=1.0.104"
clap = "=2.34.0"
futures = "=0.3.34"
json-rpc2 = { version = "=0.11.1", features = ["async"] }
log = "=0.4.35"
once_cell = "=1.21.4"
pretty_env_logger = "=0.4.0"
rand = "=0.8.8"
serde = { version = "=1.0.229", features = ["derive"] }
serde_json = "=1.0.154"
thiserror = "=1.0.69"
tokio = { version = "=1.54.1", features = ["full"] }
tokio-util = { version = "=0.7.20", features = ["codec"] }
toml = "=0.5.11"
