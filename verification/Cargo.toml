[package]
name = "jwt_sidecar"
version = "0.1.0"
edition = "2021"
publish = false

[dependencies]
jsonwebtoken = { version = "=11.1.0", features = ["rust_crypto"] }
serde_json = "=1.0.151"
base64 = "*"
axum = "*"
tokio = { version = "*", features = ["rt-multi-thread", "macros", "time", "sync", "net"] }
reqwest = { version = "*", default-features = false }
serde = { version = "*", features = ["derive"] }
tracing = "*"
tracing-subscriber = { version = "*", features = ["env-filter"] }
