[package]
name = "hp_admin_auth"
version = "0.1.0"
edition = "2021"
publish = false

[dependencies]
base64 = "0.13"
ed25519-dalek = "1.0.1"
futures = "0.1"
hyper = "0.12"
serde_json = "1"
