[package]
name = "lnurl_signup"
version = "0.1.0"
edition = "2021"
publish = false

[dependencies]
nostr-sdk = "*"
serde = { version = "*", features = ["derive"] }
serde_json = "*"
log = "*"
anyhow = "*"
