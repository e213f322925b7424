[package]
name = "realitydefender"
version = "0.1.0"
edition = "2021"
publish = false

[dependencies]
addr = "0.15"
futures = "0.3"
reqwest = { version = "0.12", default-features = false, features = ["json", "rustls-tls"] }
serde = { version = "1", features = ["derive"] }
serde_json = "1"
thiserror = "1"
tokio = { version = "1", features = ["time", "fs"] }
url = "2"
