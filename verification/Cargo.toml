[package]
name = "wordpick"
version = "0.1.0"
edition = "2021"
publish = false

[dependencies]
keyring = "3"
reqwest = { version = "0.12", default-features = false, features = ["json", "stream", "rustls-tls"] }
futures-util = "0.3"
tokio = { version = "1", features = ["time"] }
serde = { version = "1", features = ["derive"] }
serde_json = "1"
toml = "0.8"
dirs = "5"
log = "0.4"
env_logger = "0.11"
once_cell = "1"
parking_lot = "0.12"
