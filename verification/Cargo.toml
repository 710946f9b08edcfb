[package]
name = "mslive"
version = "0.1.0"
edition = "2021"
publish = false

[dependencies]
anyhow = "1"
clap = { version = "4", features = ["derive"] }
env_logger = "0.11"
itertools = "0.13"
log = "0.4"
rand = "0.8"
