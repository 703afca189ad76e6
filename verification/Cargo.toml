[package]
name = "bitcoin_core_sv2"
version = "0.1.0"
edition = "2021"
publish = false

[dependencies]
anyhow = "1"
async-channel = "2"
bitcoin = "=0.32.102"
bitcoin-capnp-types = "=0.1.2"
capnp = "=0.25.6"
capnp-rpc = "=0.25.1"
stratum-core = "=0.2.1"
tokio = { version = "1", features = ["macros", "net", "rt", "sync", "time"] }
tokio-util = { version = "0.7", features = ["compat"] }
tracing = "0.1"
