[package]
name = "noob_saturator"
version = "0.1.0"
edition = "2021"
publish = false

[dependencies]
rustfft = "6.4.1"
serde_json = "1.0.154"
log = "0.4.35"
env_logger = "0.11.11"
include_dir = "0.7.4"
