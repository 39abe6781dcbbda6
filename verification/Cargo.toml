[package]
name = "kaja_engine"
version = "0.1.0"
edition = "2021"
publish = false

[dependencies]
serde_json = "*"
uuid = { version = "*", features = ["v4"] }
serde = { version = "*", features = ["derive"] }
reqwest = { version = "*", default-features = false, features = ["json"] }
tokio = { version = "*", features = ["rt", "macros"] }
redis = { version = "*", features = ["tokio-comp"] }
dotenv = "*"
anyhow = "*"
