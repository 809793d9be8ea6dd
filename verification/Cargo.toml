[package]
name = "sandbox_calls"
version = "0.1.0"
edition = "2021"
publish = false

[dependencies]
hyperlight-common = "=0.7.0"
hyperlight-guest = "=0.7.0"
hyperlight-guest-bin = "=0.7.0"
tracing = "=0.1.44"
