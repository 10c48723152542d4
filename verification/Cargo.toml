[package]
name = "media_vault"
version = "0.1.0"
edition = "2021"
publish = false

[dependencies]
aes-gcm = "0.10"
base64 = "0.22"
sha2 = "0.10"
rand = "0.8"
serde = { version = "1", features = ["derive"] }
serde_json = "1"
rusqlite = { version = "0.32", features = ["bundled"] }
reqwest = { version = "0.12", default-features = false, features = ["blocking", "json", "cookies", "rustls-tls"] }
scraper = "0.20"
chrono = "0.4"
log = "0.4"
fern = "0.7"
once_cell = "1"
uuid = { version = "1", features = ["v4"] }
tokio = { version = "1", features = ["rt", "sync", "time"] }
image = { version = "0.25", default-features = false, features = ["webp", "jpeg", "png"] }
hostname = "0.4"
