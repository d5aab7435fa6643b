[package]
name = "whim"
version = "0.1.0"
edition = "2021"
publish = false

[dependencies]
percent-encoding = "2"
serde = { version = "1", features = ["derive"] }
serde_json = "1"
toml = "0.5"
tokio = { version = "1", features = ["full"] }
tokio-compat-02 = "0.2"
warp = { version = "0.2", features = ["tls", "compression"] }
futures = "0.3"
env_logger = "0.8"
