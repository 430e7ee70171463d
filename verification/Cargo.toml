[package]
name = "takit"
version = "0.1.0"
edition = "2021"
publish = false

[dependencies]
futures-util = "0.3"
lzma-rs = "=0.3.0"
reqwest = { version = "0.12", default-features = false, features = ["rustls-tls", "stream"] }
serde = { version = "1", features = ["derive"] }
serde_json = "1"
tar = "=0.4.46"
tokio = { version = "1", features = ["full"] }
zip = { version = "=9.2.2", default-features = false, features = ["deflate"] }
