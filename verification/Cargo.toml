[package]
name = "hotbolt"
version = "0.1.0"
edition = "2021"
publish = false

[dependencies]
toml = "*"
libloading = "*"
notify = "*"
clap = { version = "*", features = ["derive"] }
log = "*"
env_logger = "*"
