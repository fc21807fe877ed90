[package]
name = "neomind_extensions"
version = "0.1.0"
edition = "2021"
publish = false

[dependencies]
serde_json = "1"
chrono = "0.4"
tokio = { version = "1", default-features = false, features = ["sync"] }
