[package]
name = "cram"
version = "0.1.2"
edition = "2021"
publish = false

[dependencies]
semver = "1"
serde = { version = "1", features = ["derive"] }
serde_json = "1"
toml = "0.8"
clap = { version = "4", features = ["derive"] }
anyhow = "1"
tokio = { version = "1", features = ["full"] }
axum = "0.7"
reqwest = { version = "0.12", default-features = false, features = ["json", "rustls-tls"] }
tracing = "0.1"
tracing-subscriber = { version = "0.3", features = ["env-filter"] }
webbrowser = "1"
terminal_size = "0.4"
owo-colors = "4"
async-trait = "0.1"
async-stream = "0.3"
tokio-stream = { version = "0.1", features = ["sync"] }
rust-embed = "8"
