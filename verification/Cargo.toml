[package]
name = "komodo_core"
version = "0.1.0"
edition = "2021"
publish = false

[dependencies]
anyhow = "=1.0.104"
async_timing_util = "*"
indexmap = "=2.14.2"
mogh_pki = "*"
mogh_validations = "=2.0.0"
serde = { version = "=1.0.229", features = ["derive"] }
serde_json = "=1.0.154"
serde_yaml_ng = "=0.10.0"
svi = "=1.2.0"
urlencoding = "=2.1.3"
