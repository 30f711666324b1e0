[package]
name = "staticify-ip"
version = "0.1.0"
edition = "2021"
publish = false

[dependencies]
anyhow = "1"
clap = { version = "4", features = ["derive"] }
cloudflare = { version = "*", features = ["blocking"] }
env_logger = "*"
log = "0.4"
reqwest = { version = "*", features = ["blocking"] }
serde = { version = "1", features = ["derive"] }
toml = "*"
