[package]
name = "mcp-crm"
version = "1.0.0"
edition = "2021"
publish = false

[dependencies]
adk-mcp-sdk = "*"
anyhow = "*"
async-trait = "*"
chrono = "*"
dotenvy = "*"
reqwest = { version = "*", default-features = false, features = ["json", "rustls-tls"] }
rmcp = { version = "*", features = ["server", "macros", "transport-io"] }
serde = { version = "*", features = ["derive"] }
serde_json = "*"
tokio = { version = "*", features = ["full"] }
tracing = "*"
tracing-subscriber = { version = "*", features = ["env-filter"] }
