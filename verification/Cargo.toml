[package]
name = "qr_broker"
version = "0.1.0"
edition = "2021"
publish = false

[dependencies]
hex = "0.4"
reqwest = { version = "0.12", default-features = false, features = ["json", "rustls-tls"] }
serde = { version = "1", features = ["derive"] }
serde_json = "1"
sha2 = "0.10"
urlencoding = "2"
