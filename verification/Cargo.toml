[package]
name = "copy_gif_host"
version = "0.1.0"
edition = "2021"
publish = false

[dependencies]
reqwest = { version = "*", default-features = false, features = ["blocking"] }
tempfile = "*"
dirs = "*"
env_logger = "*"
log = "*"

[dev-dependencies]
serde_json = "*"
