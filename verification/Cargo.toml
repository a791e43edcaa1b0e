[package]
name = "rat_trig"
version = "0.1.0"
edition = "2021"
publish = false

[dependencies]
clap = { version = "4", features = ["derive"] }
env_logger = "0.11"
log = "0.4"
num-traits = "0.2"

[dev-dependencies]
num-rational = { version = "0.4", default-features = false, features = ["std"] }
