[package]
name = "mbus_events"
version = "0.1.0"
edition = "2021"
publish = false

[dependencies]
async-nats = "*"
async-trait = "*"
bytes = "*"
chrono = "*"
futures = "*"
glob = "*"
nix = { version = "*", features = ["feature"] }
semver = "*"
serde = { version = "*", features = ["derive"] }
serde_json = "*"
tokio = { version = "*", features = ["sync", "rt", "time", "macros"] }
tracing = "*"
tracing-subscriber = { version = "*", features = ["env-filter"] }
uuid = { version = "*", features = ["v4"] }
