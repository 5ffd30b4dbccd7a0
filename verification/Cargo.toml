[package]
name = "fedimint-server"
version = "0.1.0"
edition = "2021"
publish = false

[dependencies]
anyhow = "=1.0.104"
argon2 = "=0.5.3"
bitcoin_hashes = "=0.11.0"
itertools = "=0.10.5"
rand = "=0.8.8"
rcgen = "=0.10.0"
ring = "=0.16.20"
serde = { version = "=1.0.229", features = ["derive"] }
serde_json = "=1.0.154"
tokio-rustls = "=0.23.4"
url = "=2.5.8"

[dev-dependencies]
chacha20poly1305 = "=0.10.1"
