[package]
name = "pi_harness"
version = "0.1.0"
edition = "2021"
publish = false

[dependencies]
serde_json = "1"
codex-app-server-protocol = "*"
