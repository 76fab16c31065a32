[package]
name = "estate_auth"
version = "0.1.0"
edition = "2021"
publish = false

[dependencies]
jsonwebtoken = { version = "=11.1.0", features = ["rust_crypto"] }
bcrypt = "=0.19.3"
uuid = { version = "=1.27.0", features = ["v4"] }
serde_json = "=1.0.151"
serde = { version = "=1.0.229", features = ["derive"] }
time = "=0.3.55"
axum = "=0.8.9"
tokio = { version = "=1.53.2", features = ["rt-multi-thread", "macros", "net"] }
tower-http = { version = "=0.7.1", features = ["cors"] }
