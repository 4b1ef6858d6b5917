[package]
name = "discord_next"
version = "0.1.0"
edition = "2021"
publish = false

[dependencies]
serde = { version = "1", features = ["derive"] }
serde_json = "1"
byteorder = "1"
itertools = "*"
url = "2"
chrono = "0.4"
futures = "0.3"
tokio = { version = "1", features = ["rt-multi-thread", "macros", "time", "net", "sync", "process", "io-util"] }
tokio-tungstenite = { version = "*", features = ["rustls-tls-webpki-roots"] }
reqwest = { version = "*", default-features = false, features = ["json", "rustls-tls"] }
thiserror = "*"
tracing = "0.1"
opus = "*"
rust_sodium = "*"
