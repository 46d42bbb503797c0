[package]
name = "sv1_proxy"
version = "0.1.0"
edition = "2021"
publish = false

[dependencies]
serde_json = "=1.0.154"
serde = { version = "=1.0.229", features = ["derive"] }
toml = "=0.8.23"
tokio = { version = "=1.54.1", features = ["full"] }
async-channel = "=1.9.0"
codec_sv2 = { version = "=2.0.0", features = ["noise_sv2"] }
key-utils = "=1.2.0"
network_helpers_sv2 = "=3.0.0"
roles_logic_sv2 = "=2.0.0"
template_distribution_sv2 = "=3.0.0"
