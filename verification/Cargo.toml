[package]
name = "draft_engine"
version = "0.1.0"
edition = "2021"
publish = false

[dependencies]
anyhow = "*"
base64 = "*"
futures-util = { version = "*", features = ["sink"] }
reqwest = { version = "*", default-features = false, features = ["json", "rustls-tls"] }
serde_json = "*"
sysinfo = "0.29"
tokio = { version = "*", features = ["macros", "rt-multi-thread", "time"] }
tokio-tungstenite = { version = "*", features = ["rustls-tls-webpki-roots"] }
toml = "*"
url = "*"
