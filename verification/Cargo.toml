[package]
name = "seco"
version = "0.1.0"
edition = "2021"
publish = false

[dependencies]
sha2 = "=0.10.9"
aes-gcm = "=0.10.3"
base64 = "=0.22.1"
rand = "=0.9.5"
rust_decimal = "=1.43.0"
serde_json = "=1.0.154"
serde = { version = "=1.0.229", features = ["derive"] }
chrono = "=0.4.45"
uuid = "=1.29.1"
