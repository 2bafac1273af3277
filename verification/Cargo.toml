[package]
name = "rust_sdk"
version = "0.1.0"
edition = "2021"
publish = false

[dependencies]
anyhow = "1"
env_logger = "0.11"
jni = "0.21"
log = "0.4"
