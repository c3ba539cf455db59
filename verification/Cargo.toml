[package]
name = "llm_access"
version = "0.1.0"
edition = "2021"
publish = false

[dependencies]
anyhow = "1"
axum = "=0.8.9"
better_mimalloc_rs = { version = "=0.1.2", features = ["config", "extended"] }
better_mimalloc_sys = { version = "=0.1.2", features = ["extended"] }
flate2 = "=1.1.10"
maxminddb = "=0.27.3"
rand = "=0.8.8"
redis = { version = "=0.27.6", default-features = false, features = ["tokio-comp"] }
reqwest = { version = "0.12", default-features = false, features = ["json"] }
serde = { version = "1", features = ["derive"] }
serde_json = "=1.0.154"
sha2 = "=0.10.9"
tokio = { version = "1", features = ["fs", "macros", "rt-multi-thread", "sync", "time"] }
url = "=2.5.8"
uuid = { version = "=1.29.0", features = ["v4"] }
