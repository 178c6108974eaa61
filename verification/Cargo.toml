[package]
name = "ultrafast-mcp-sequential-thinking"
version = "0.1.0"
edition = "2021"
publish = false

[dependencies]
async-trait = "0.1"
atty = "0.2"
chrono = { version = "=0.4.45", features = ["serde"] }
clap = { version = "4", features = ["derive"] }
serde = { version = "1", features = ["derive"] }
serde_json = "=1.0.154"
serde_yaml = "0.9"
thiserror = "1"
tokio = { version = "1", features = ["full"] }
toml = "0.8"
tracing = "0.1"
tracing-subscriber = { version = "0.3", features = ["env-filter"] }
ultrafast-mcp = { version = "202506018.1.0", features = ["http"] }
uuid = { version = "=1.29.0", features = ["v4", "serde"] }
