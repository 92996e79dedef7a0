[package]
name = "configurator"
version = "0.1.0"
edition = "2021"
publish = false

[dependencies]
itertools = "0.10"
serde_json = "1"
serde = { version = "1", features = ["derive"] }
glob = "0.3"
dirs = "4"
log = "0.4"
env_logger = { version = "0.9", default-features = false }
