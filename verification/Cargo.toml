[package]
name = "openidconnect"
version = "0.1.0"
edition = "2021"
publish = false

[dependencies]
base64 = "=0.22.1"
chrono = { version = "=0.4.45", default-features = false, features = ["std"] }
curl = "=0.4.51"
ring = "=0.17.14"
serde_json = "=1.0.154"
url = "=2.5.8"
