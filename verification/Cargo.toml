[package]
name = "rust_tcpip"
version = "0.1.0"
edition = "2021"
publish = false

[dependencies]
thiserror = "1"
tracing = "0.1"
tracing-subscriber = "0.3"
tun-tap = { version = "0.1", default-features = false }
