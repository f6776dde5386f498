[package]
name = "hashd_params"
version = "0.1.0"
edition = "2021"
publish = false

[dependencies]
rd-agent-intf = "=2.2.5"
rd-hashd-intf = "=2.2.5"
rd-util = "=2.2.5"
serde = { version = "=1.0.229", features = ["derive"] }
serde_json = "=1.0.151"
