[package]
name = "evervoice"
version = "0.1.0"
edition = "2021"
publish = false

[dependencies]
serde_json = "1"
serde = { version = "1", features = ["derive"] }
reqwest = { version = "0.12", default-features = false, features = ["blocking", "json", "multipart", "rustls-tls"] }
tokio = { version = "1", features = ["rt", "time"] }
thiserror = "1"
log = "0.4"
chrono = "0.4"
uuid = { version = "1", features = ["v4"] }
dirs = "5"
