[package]
name = "gpt_sovits_plugin"
version = "0.1.0"
edition = "2021"
publish = false

[dependencies]
anyhow = "=1.0.104"
env_logger = "=0.11.11"
gpt_sovits_rs = "=0.6.0"
log = "=0.4.34"
serde = { version = "=1.0.229", features = ["derive"] }
serde_json = "=1.0.154"
wasmedge_plugin_sdk = "=0.2.0"
wav_io = "=0.1.17"
