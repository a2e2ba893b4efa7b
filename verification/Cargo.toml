[package]
name = "cloudflare-dyndns"
version = "0.1.0"
edition = "2021"
publish = false

[dependencies]
indexmap = { version = "=2.14.2", features = ["serde"] }
camino = { version = "=1.2.6", features = ["serde1"] }
clap = { version = "=4.6.7", features = ["derive"] }
color-eyre = "=0.6.5"
dirs = "=5.0.1"
fs-err = "=2.11.0"
nix = { version = "0.29", features = ["user"] }
reqwest = { version = "=0.12.28", default-features = false, features = ["json", "rustls-tls"] }
serde = { version = "=1.0.229", features = ["derive"] }
tokio = { version = "=1.54.1", features = ["macros", "rt-multi-thread"] }
toml = "=0.8.23"
tracing = "=0.1.44"
tracing-subscriber = "=0.3.23"
