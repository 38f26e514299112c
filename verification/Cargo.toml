[package]
name = "wallet_adapter"
version = "0.1.0"
edition = "2021"
publish = false

[dependencies]
base64ct = { version = "=1.8.3", features = ["alloc"] }
blake3 = { version = "=1.8.7", default-features = false, features = ["pure", "std"] }
bs58 = "=0.5.1"
ed25519-dalek = "=2.2.0"
humantime = "=2.4.0"
rand_chacha = "=0.9.0"
rand_core = { version = "=0.9.5", features = ["os_rng"] }
