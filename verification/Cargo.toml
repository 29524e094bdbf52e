[package]
name = "ghoauth"
version = "0.1.0"
edition = "2021"
publish = false

[dependencies]
axum = "0.6"
maud = "*"
port-selector = "*"
reqwest = { version = "0.11", default-features = false, features = ["json"] }
serde = { version = "1", features = ["derive"] }
thiserror = "1"
tokio = { version = "1", features = ["full"] }
url = "2"
