[package]
name = "spotify_rs"
version = "0.1.0"
edition = "2021"
publish = false

[dependencies]
anyhow = "=1.0.104"
base64 = "=0.22.1"
bitwarden = "=1.0.0"
rand = "=0.8.8"
reqwest = { version = "=0.12.28", features = ["blocking", "json"] }
# Not called from this crate. The certificate verifier that bitwarden pulls in
# builds only where this version has its `std` feature switched on.
rustls-webpki = { version = "=0.102.8", features = ["std"] }
serde = { version = "=1.0.229", features = ["derive"] }
serde_json = "=1.0.154"
sha2 = "=0.10.9"
tokio = { version = "=1.54.1", features = ["rt"] }
tracing = "=0.1.44"
tracing-subscriber = "=0.3.23"
url = "=2.5.8"
uuid = { version = "=1.29.0", features = ["serde"] }
