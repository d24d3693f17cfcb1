[package]
name = "env_check"
version = "0.1.0"
edition = "2021"
publish = false

[dependencies]
futures-util = "*"
reqwest = { version = "*", default-features = false, features = ["rustls-tls", "stream"] }
serde = { version = "*", features = ["derive"] }
tokio = { version = "*", features = ["full"] }
