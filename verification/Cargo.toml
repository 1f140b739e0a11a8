[package]
name = "lepro-core"
version = "0.1.0"
edition = "2021"
publish = false

[dependencies]
base64 = "0.22"
rand = "0.8"
sha2 = "0.10"
url = "2"
serde = { version = "1", features = ["derive"] }
serde_json = "1"
thiserror = "1"
tokio = { version = "1", features = ["net", "sync", "rt", "macros"] }
axum = "0.7"
reqwest = { version = "0.12", default-features = false, features = ["json"] }
keyring = { version = "2", default-features = false }
