[package]
name = "runelink"
version = "0.1.0"
edition = "2021"
publish = false

[dependencies]
argon2 = { version = "0.5", features = ["std"] }
axum = { version = "0.8", features = ["ws"] }
base64 = "0.22"
dirs-next = "2"
ed25519-dalek = { version = "2", features = ["pkcs8", "rand_core"] }
env_logger = "0.11"
futures-util = "0.3"
jsonwebtoken = "9"
log = "0.4"
rand = "0.8"
reqwest = { version = "0.12", default-features = false, features = ["json"] }
serde = { version = "1", features = ["derive"] }
serde_json = "1"
sqlx = { version = "0.8", default-features = false, features = ["runtime-tokio", "postgres", "time", "uuid", "json", "migrate"] }
thiserror = "2"
time = { version = "0.3", features = ["serde-well-known"] }
tokio = { version = "1", features = ["macros", "rt-multi-thread", "sync", "time", "net"] }
tokio-tungstenite = "0.26"
toml = "0.8"
uuid = { version = "1", features = ["v4", "serde"] }
