[package]
name = "osm_feed"
version = "0.1.0"
edition = "2021"
publish = false

[dependencies]
anyhow = "1"
chrono = { version = "0.4", features = ["serde"] }
clap = { version = "4", features = ["derive"] }
env_logger = "*"
jsonxf = "1"
log = "0.4"
serde = { version = "1", features = ["derive"] }
serde_yaml = "0.9"
ureq = "3"
