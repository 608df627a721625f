[package]
name = "da_harness"
version = "0.3.0"
edition = "2021"
publish = false

[dependencies]
anyhow = "1"
async-openai = { version = "0.29", default-features = false }
async-trait = "0.1"
futures = "0.3"
reqwest = { version = "0.12", default-features = false, features = ["json"] }
schemars = "0.8"
serde = { version = "1", features = ["derive"] }
serde_json = "1"
tokio = { version = "1", features = ["sync", "time", "rt", "macros"] }
tokio-retry = "*"
tracing = "0.1"
