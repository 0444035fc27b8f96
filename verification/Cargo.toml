[package]
name = "llp"
version = "0.1.0"
edition = "2021"
publish = false

[dependencies]
chacha20poly1305 = "0.10"
hkdf = "0.12"
sha2 = "0.10"
ring = "0.17"
x25519-dalek = { version = "2", features = ["static_secrets"] }
ed25519-dalek = "2"
blake3 = "1"
hex = "0.4"
rand = "0.8"
chrono = "0.4"
tokio = { version = "1", features = ["full"] }
serde = { version = "1", features = ["derive"] }
toml = "0.8"
clap = { version = "4", features = ["derive"] }
anyhow = "1"
thiserror = "1"
tracing = "0.1"
tracing-subscriber = "0.3"
bytes = "1"
tun = "*"
tun-tap = "*"
nix = "*"
