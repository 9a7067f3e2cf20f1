[package]
name = "dawnjection"
version = "0.1.0"
edition = "2021"
publish = false

[dependencies]
async-nats = "=0.51.0"
async-trait = "=0.1.92"
bytes = "=1.12.1"
eyre = "=0.6.14"
futures = "=0.3.34"
log = "=0.4.35"
proc-macro2 = "=1.0.107"
quote = "=1.0.47"
serde = { version = "=1.0.229", features = ["derive"] }
serde_json = "=1.0.154"
syn = { version = "=2.0.119", features = ["full"] }
tokio = { version = "=1.54.1", features = ["rt", "rt-multi-thread", "macros", "time", "sync"] }
