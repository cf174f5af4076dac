[package]
name = "pixiechess_client"
version = "0.1.0"
edition = "2021"
publish = false

[dependencies]
reqwest = { version = "=0.12.28", default-features = false, features = ["json", "rustls-tls"] }
url = "=2.5.8"
chrono = { version = "=0.4.45", default-features = false, features = ["clock", "std", "serde"] }
serde = { version = "=1.0.229", features = ["derive"] }
serde_json = "=1.0.154"
thiserror = "=2.0.21"
futures = "=0.3.34"
async-stream = "=0.3.6"
