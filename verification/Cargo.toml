[package]
name = "lnbits_client"
version = "0.1.0"
edition = "2021"
publish = false

[dependencies]
reqwest = { version = "*", default-features = false }
tokio = { version = "*", features = ["sync"] }
serde = { version = "*", features = ["derive"] }
serde_json = "*"
axum = "*"
log = "*"
anyhow = "*"
