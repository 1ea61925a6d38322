[package]
name = "rcli"
version = "0.1.0"
edition = "2021"
publish = false

[dependencies]
anyhow = "1"
blake3 = "1"
clap = { version = "4", features = ["derive"] }
csv = "1"
ed25519-dalek = "2"
rand = "0.9"
serde_json = "1"
serde_yaml = "0.9"
zxcvbn = "3"

[dev-dependencies]
base64 = "0.22"
