[package]
name = "session_core"
version = "0.1.0"
edition = "2021"
publish = false

[dependencies]
async-trait = "0.1"
axum-core = "0.3"
chrono = { version = "0.4", default-features = false, features = ["clock", "std"] }
cookie = { version = "0.16", features = ["percent-encode", "private"] }
http = "0.2"
serde = { version = "1", features = ["derive"] }
serde_json = "1"
tracing = "0.1"
uuid = { version = "1", features = ["v4"] }
