[package]
name = "wartid_client"
version = "0.1.0"
edition = "2021"
publish = false

[dependencies]
chrono = "=0.4.45"
jsonwebtoken = "=7.2.0"
rand = "=0.8.8"
reqwest = { version = "=0.11.27", default-features = false, features = ["blocking", "json"] }
serde = { version = "=1.0.229", features = ["derive"] }
serde_json = "=1.0.151"
serde_urlencoded = "=0.7.1"
uuid = { version = "=1.27.0", features = ["serde", "v4"] }
