[package]
name = "authentication_backend"
version = "0.1.0"
edition = "2021"
publish = false

[dependencies]
base64 = "0.13"
rand = "0.8"
opaque-ke = "0.5"
curve25519-dalek = "3"
argon2 = "0.3"
sha2 = "0.9"
digest = "0.9"
generic-array = "0.14"
serde = { version = "1", features = ["derive"] }
serde_json = "1"
