[package]
name = "deepmind"
version = "0.1.0"
edition = "2021"
publish = false

[dependencies]
ethereum-types = "*"
keccak-hash = "*"
rustc-hex = "2"
serde = { version = "1", features = ["derive"] }
serde_json = "1"
