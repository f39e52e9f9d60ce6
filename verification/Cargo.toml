[package]
name = "yampd"
version = "0.1.0"
edition = "2021"
publish = false

[dependencies]
symphonia = { version = "=0.5.5", default-features = false, features = ["wav", "pcm"] }
cpal = "=0.15.3"
rusqlite = "=0.29.0"
lofty = "=0.18.2"
axum = "=0.6.20"
tower-http = { version = "=0.4.4", features = ["cors"] }
serde = { version = "=1.0.229", features = ["derive"] }
serde_json = "=1.0.154"
dirs = "=5.0.1"
utoipa = "=3.5.0"
