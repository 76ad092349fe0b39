[package]
name = "x402_facilitator"
version = "0.1.0"
edition = "2021"
publish = false

[dependencies]
alloy = { version = "=2.5.0", default-features = false, features = ["signers"] }
solana-sdk = { version = "=5.0.0", default-features = false, features = ["full"] }
tower = { version = "=0.5.3", features = ["limit", "util"] }
axum = { version = "0.7", default-features = false, features = ["json", "http1", "tokio"] }
tokio = { version = "=1.54.1", features = ["rt-multi-thread", "macros", "net", "time", "signal"] }
tracing = "=0.1.44"
once_cell = "=1.21.4"
serde = { version = "=1.0.229", features = ["derive"] }
serde_json = "=1.0.154"
