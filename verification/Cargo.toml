[package]
name = "notewave"
version = "0.1.0"
edition = "2021"
publish = false

[dependencies]
rodio = { version = "0.19", default-features = false }
serde = { version = "1", features = ["derive"] }
serde_json = "1"
