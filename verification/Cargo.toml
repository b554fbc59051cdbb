[package]
name = "holochain_client"
version = "0.1.0"
edition = "2021"
publish = false

[dependencies]
anyhow = "1"
ed25519-dalek = { version = "2", features = ["rand_core"] }
rand = "0.8"
serde = { version = "1", features = ["derive"] }
url = "2"
