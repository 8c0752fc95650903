[package]
name = "daruma_storage"
version = "0.1.0"
edition = "2021"
publish = false

[dependencies]
chrono = "0.4"
fastbloom = "0.9"
hex = "0.4"
serde = { version = "1", features = ["derive"] }
serde_json = "1"
sha2 = "0.10"
sqlx = { version = "0.8", default-features = false, features = ["sqlite", "runtime-tokio", "migrate"] }
tokio = { version = "1", features = ["rt"] }
tracing = "0.1"
uuid = { version = "1", features = ["v4", "v7"] }
async-trait = "0.1"
