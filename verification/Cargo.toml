[package]
name = "onetime_rs"
version = "0.1.0"
edition = "2021"
publish = false

[dependencies]
aes-gcm-siv = "0.11"
rust-argon2 = "2"
rand = "0.8"
uuid = { version = "1", features = ["v4", "serde"] }
axum = "0.6"
bb8-redis = "0.13"
tokio = { version = "1", features = ["macros", "rt-multi-thread"] }
tower-http = { version = "0.4", features = ["cors"] }
tracing = "0.1"
tracing-subscriber = "0.3"
serde = { version = "1", features = ["derive"] }
serde_json = "1"
