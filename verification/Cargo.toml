[package]
name = "carts"
version = "0.1.0"
edition = "2021"
publish = false

[dependencies]
anyhow = "1"
chrono = "0.4"
serde = { version = "1", features = ["derive"] }
serde_json = "1"
spin-sdk = "2"
url = "2"
urlpattern = "0.2"
