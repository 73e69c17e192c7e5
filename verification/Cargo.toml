[package]
name = "punktfunk_webos"
version = "0.1.0"
edition = "2021"
publish = false

[dependencies]
anyhow = "*"
mdns-sd = "*"
tracing = "*"
