[package]
name = "user_repo"
version = "0.1.0"
edition = "2021"
publish = false

[dependencies]
serde_json = "*"
anyhow = "*"
reqwest = { version = "*", default-features = false }
