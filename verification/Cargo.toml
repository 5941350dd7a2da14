[package]
name = "mqtt2ha_reporter"
version = "0.1.0"
edition = "2021"
publish = false

[dependencies]
hmac-sha256 = "*"
anyhow = "*"
tokio = { version = "*", features = ["full"] }
rumqttc = { version = "*", features = ["use-rustls"] }
serde = { version = "*", features = ["derive"] }
serde_json = "*"
toml = "*"
log = "*"
pretty_env_logger = "*"
signal-hook = "*"
hostname = "*"
nix = { version = "*", features = ["fs", "feature"] }
time = { version = "*", features = ["formatting"] }
futures-util = "*"
async-trait = "*"
zbus = { version = "*", default-features = false, features = ["tokio"] }
tokio-stream = "*"
