[package]
name = "zel_core"
version = "0.1.0"
edition = "2021"
publish = false

[dependencies]
anyhow = "=1.0.104"
async-trait = "=0.1.92"
bytes = "=1.12.1"
circuitbreaker-rs = { version = "=0.1.1", features = ["async"] }
cobs = "=0.5.1"
futures = "=0.3.34"
iroh = "=1.4.1"
iroh-quinn = "=0.16.1"
jsonrpsee = { version = "=0.26.1", default-features = false, features = ["server-core", "client-core", "async-client", "jsonrpsee-types"] }
log = "=0.4.35"
serde = { version = "=1.0.229", features = ["derive"] }
serde_json = "=1.0.154"
thiserror = "=2.0.21"
tokio = { version = "=1.54.1", features = ["rt-multi-thread", "macros", "sync", "time", "io-util"] }
tokio-util = { version = "=0.7.20", features = ["codec"] }
tower = "=0.5.3"
