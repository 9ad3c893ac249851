[package]
name = "youtube-lounge-rs"
version = "8.0.4"
edition = "2021"
publish = false

[dependencies]
regex = "1"
serde_urlencoded = "0.7"
serde = { version = "1", features = ["derive"] }
serde_json = "1"
tokio = { version = "1", features = ["rt-multi-thread", "macros", "sync", "time"] }
tokio-util = { version = "0.7", features = ["codec"] }
bytes = "1"
futures = "0.3"
reqwest = { version = "0.12", default-features = false, features = ["json", "stream", "rustls-tls"] }
uuid = { version = "1", features = ["v4"] }
rand = "0.8"
tracing = "0.1"
thiserror = "1"
dotenv = "0.15"
once_cell = "1"
lazy_static = "1"
urlencoding = "2"
