[package]
name = "moix"
version = "0.1.0"
edition = "2021"
publish = false

[dependencies]
blake3 = "1"
base64 = "0.22"
serde = { version = "1", features = ["derive"] }
serde_json = "1"
chrono = "0.4"
dotenv = "0.15"
tokio = { version = "1", features = ["full"] }
futures = "0.3"
tokio-tungstenite = "0.24"
ratatui = "0.29"
actix-web = "4"
actix-files = "0.6"
tera = "1"
mongodb = "2"
reqwest = { version = "0.12", default-features = false }
