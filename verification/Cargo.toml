[package]
name = "llm_sdk"
version = "0.1.0"
edition = "2021"
publish = false

[dependencies]
anyhow = "=1.0.104"
async-trait = "=0.1.92"
bytes = "=1.12.1"
http = "=1.5.0"
reqwest = { version = "=0.12.28", default-features = false, features = ["json", "multipart", "rustls-tls"] }
reqwest-middleware = { version = "=0.4.2", features = ["json", "multipart"] }
reqwest-retry = "=0.7.0"
reqwest-tracing = "=0.5.8"
schemars = "=0.8.22"
serde = { version = "=1.0.229", features = ["derive"] }
serde_json = "=1.0.154"
tracing = "=0.1.44"

[dev-dependencies]
futures = "=0.3.34"
