[package]
name = "archiver"
version = "0.1.0"
edition = "2021"
publish = false

[dependencies]
bincode = "1.2.1"
bs58 = "0.3.0"
crossbeam-channel = "0.3.9"
ed25519-dalek = "1.0.1"
rand = "0.6.5"
rand_chacha = "0.1.1"
rayon = "1.2.0"
serde = { version = "1.0.103", features = ["derive"] }
serde_json = "1.0.44"
sha2 = "0.8.0"
