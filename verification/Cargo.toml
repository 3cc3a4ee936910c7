[package]
name = "cursedboard"
version = "0.1.0"
edition = "2021"
publish = false

[dependencies]
hmac = "=0.12.1"
sha2 = "=0.10.9"
uuid = { version = "=1.29.0", features = ["v4"] }
regex = "=1.13.1"
hostname = "=0.4.2"
tokio = { version = "=1.54.1", features = ["full"] }
mdns-sd = "=0.21.6"
clap = { version = "=4.6.7", features = ["derive", "env"] }
serde = { version = "=1.0.229", features = ["derive"] }
toml = "=0.8.23"
dirs = "=5.0.1"
tracing = "=0.1.44"
tracing-subscriber = { version = "=0.3.23", features = ["env-filter"] }
anyhow = "=1.0.104"
thiserror = "=1.0.69"
arboard = { version = "3", default-features = false }
