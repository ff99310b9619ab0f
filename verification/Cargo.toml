[package]
name = "rsc2"
version = "0.1.0"
edition = "2021"
publish = false

[dependencies]
either = "=1.19.0"
bytes = "=1.12.1"
futures = "=0.3.34"
log = "=0.4.34"
prost = "=0.14.4"
proc-macro2 = "=1.0.107"
quote = "=1.0.47"
serde = { version = "=1.0.229", features = ["derive"] }
serde_json = "=1.0.154"
syn = { version = "=2.0.119", features = ["full"] }
tokio = { version = "=1.54.1", features = ["rt-multi-thread", "net", "time"] }
tokio-util = { version = "=0.7.20", features = ["codec"] }
websocket-codec = "=0.5.2"
websocket-lite = "=0.5.2"
