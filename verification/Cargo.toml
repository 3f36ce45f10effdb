[package]
name = "jwks_server_rust"
version = "0.1.0"
edition = "2021"
publish = false

[dependencies]
rsa = "0.9"
uuid = { version = "1", features = ["v4"] }
time = "0.3"
base64 = "0.22"
jsonwebtoken = "9"
serde = { version = "1", features = ["derive"] }
serde_json = "1"
axum = "0.7"
tokio = { version = "1", features = ["macros", "rt-multi-thread", "net"] }
