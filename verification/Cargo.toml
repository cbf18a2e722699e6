[package]
name = "ocs_plugin_host"
version = "0.1.0"
edition = "2021"
publish = false

[dependencies]
acadrust = { version = "=0.6.8", features = ["serde"] }
glam = "=0.34.2"
image = { version = "=0.25.10", default-features = false, features = ["png"] }
serde_json = { version = "=1.0.154", features = ["float_roundtrip"] }
