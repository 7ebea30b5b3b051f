[package]
name = "mcp_gemini_cli"
version = "0.1.0"
edition = "2021"
publish = false

[dependencies]
serde_json = "*"
serde = { version = "*", features = ["derive"] }
anyhow = "*"
axum = "*"
clap = { version = "*", features = ["derive", "env"] }
rmcp = { version = "*", features = ["server", "transport-sse-server"] }
schemars = "*"
tokio = { version = "*", features = ["full"] }
tokio-util = "*"
tracing = "*"
tracing-subscriber = { version = "*", features = ["env-filter"] }
