[package]
name = "beacon_node"
version = "0.1.0"
edition = "2021"
publish = false

[dependencies]
clap = "=2.34.0"
dirs = "=2.0.2"
hyper = "=0.12.36"
multiaddr = "*"
rand = "=0.7.3"
serde = { version = "=1.0.229", features = ["derive"] }
serde_json = "=1.0.154"
slog = "=2.8.2"
slog-async = "=2.8.0"
slog-term = "=2.9.2"
toml = "=0.5.11"
ureq = { version = "=2.12.1", default-features = false }
