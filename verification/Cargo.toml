[package]
name = "ms_air_filter"
version = "0.1.0"
edition = "2021"
publish = false

[dependencies]
rand = "=0.8.8"
serde = { version = "=1.0.229", features = ["derive"] }
serde_json = "=1.0.154"
rumqttc = { version = "=0.24.0", default-features = false }
tokio = { version = "=1.54.1", features = ["rt-multi-thread", "macros", "time"] }
anyhow = "=1.0.104"
log = "=0.4.35"
embassy-time = { version = "=0.4.0", features = ["std"] }
embassy-sync = "=0.6.2"
embassy-futures = "=0.1.2"
embassy-net = { version = "0.6", features = ["tcp", "dhcpv4", "proto-ipv4", "medium-ethernet"] }
rust-mqtt = "0.3"
serde-json-core = "0.6"
embedded-io-async = "0.6"
