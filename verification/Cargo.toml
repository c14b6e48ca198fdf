[package]
name = "aspeak"
version = "0.1.0"
edition = "2021"
publish = false

[dependencies]
anyhow = "1"
chrono = { version = "0.4", default-features = false, features = ["std", "clock"] }
clap = { version = "4", features = ["derive"] }
color-eyre = "0.6"
colored = "2"
env_logger = "0.10"
futures-util = { version = "0.3", default-features = false, features = ["sink", "std"] }
hyper = { version = "0.14", features = ["client", "http1"] }
log = "0.4"
reqwest = { version = "0.11", default-features = false, features = ["json", "native-tls"] }
serde = { version = "1", features = ["derive"] }
strum = { version = "0.24", features = ["derive"] }
tokio = { version = "1", features = ["rt", "net", "time", "io-util"] }
tokio-socks = "0.5"
tokio-tungstenite = { version = "0.19", features = ["native-tls"] }
toml = { version = "0.7", default-features = false, features = ["parse"] }
url = "2"
uuid = { version = "1", features = ["v4"] }
