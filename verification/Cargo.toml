[package]
name = "hackline-gateway"
version = "0.1.0"
edition = "2021"
publish = false

[dependencies]
serde = { version = "1", features = ["derive"] }
serde_json = "1"
sha2 = "0.10"
hex = "0.4"
base64 = "0.22"
rand = "0.9"
subtle = "2"
x509-parser = "*"
toml = "0.8"
anyhow = "1"
thiserror = "*"
tokio = { version = "1", features = ["full"] }
axum = "0.8"
rusqlite = { version = "*", features = ["bundled"] }
r2d2 = "0.8"
r2d2_sqlite = "*"
tracing = "0.1"
tracing-subscriber = { version = "0.3", features = ["env-filter", "json"] }
uuid = { version = "1", features = ["v4"] }
futures = "0.3"
tokio-stream = { version = "0.1", features = ["sync"] }
axum-server = { version = "*", features = ["tls-rustls"] }
rustls = "0.23"
tokio-rustls = "0.26"
rustls-pemfile = "2"
rcgen = "*"
instant-acme = "*"
arc-swap = "1"
dirs = "*"

[dev-dependencies]
time = "0.3"
