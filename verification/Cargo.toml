[package]
name = "maypaper"
version = "0.1.0"
edition = "2021"
publish = false

[dependencies]
anyhow = "*"
async-channel = "*"
axum = "*"
clap = { version = "*", features = ["derive"] }
console = "*"
gtk4 = "*"
gtk4-layer-shell = "*"
rust-embed = "*"
serde = { version = "*", features = ["derive"] }
serde_json = "*"
tokio = { version = "*", features = ["rt", "net", "io-util", "sync", "macros"] }
toml = "*"
tower = "*"
tower-http = { version = "*", features = ["fs", "trace"] }
tracing = "*"
tracing-subscriber = { version = "*", features = ["env-filter"] }
webkit6 = "*"
