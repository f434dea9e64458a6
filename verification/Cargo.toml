[package]
name = "dualcut_engine"
version = "0.1.0"
edition = "2021"
publish = false

[dependencies]
anyhow = "=1.0.104"
serde_json = "=1.0.154"
tiny_http = "=0.12.0"
image = { version = "=0.25.10", default-features = false, features = ["png"] }
pollster = "=1.0.1"
vello = "=0.11.0"
