[package]
name = "wise"
version = "0.1.0"
edition = "2021"
publish = false

[dependencies]
base64 = "0.22"
chrono = "0.4"
clap = { version = "4", features = ["derive"] }
config = { version = "0.14", default-features = false, features = ["toml"] }
futures = "0.3"
futures-util = "0.3"
nom = "7"
notify = "6"
regex = "1"
rustls-pemfile = "2"
serde = { version = "1", features = ["derive"] }
serde_json = "1"
serde_with = "3"
thiserror = "1"
tokio = { version = "1", features = ["full"] }
tokio-rustls = "0.25"
tokio-tungstenite = "0.21"
tracing = "0.1"
tracing-subscriber = "0.3"
