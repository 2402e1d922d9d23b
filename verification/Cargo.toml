[package]
name = "goose_core"
version = "0.1.0"
edition = "2021"
publish = false

[dependencies]
anyhow = "1"
async-stream = "0.3"
async-trait = "0.1"
axum = "0.8"
bytes = "1"
chrono = "0.4"
cliclack = "0.3"
console = "0.15"
futures = "0.3"
indoc = "2"
lru = "0.12"
regex = "1"
reqwest = { version = "0.12", default-features = false, features = ["rustls-tls", "json"] }
rmcp = { version = "0.8", features = ["client", "schemars", "auth", "reqwest", "transport-child-process", "transport-sse-client", "transport-sse-client-reqwest", "transport-streamable-http-client", "transport-streamable-http-client-reqwest"] }
rustyline = "15"
serde = { version = "1", features = ["derive"] }
serde_json = "1"
tempfile = "3"
thiserror = "1"
tokio = { version = "1", features = ["full"] }
tokio-stream = "0.1"
tokio-util = "0.7"
tracing = "0.1"
utoipa = "4"
uuid = { version = "1", features = ["v4"] }
