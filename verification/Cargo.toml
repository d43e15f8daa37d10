[package]
name = "ratma_tg_types"
version = "0.1.0"
edition = "2021"
publish = false

[dependencies]
rand = "0.10"
uuid = "1"
tokio = { version = "1", features = ["rt", "rt-multi-thread", "net", "sync", "macros", "time"] }
hyper = { version = "1", features = ["server", "http1"] }
hyper-util = { version = "0.1", features = ["tokio"] }
http-body-util = "0.1"
serde_json = "1"
async-stream = "0.3"
futures-core = "0.3"
anyhow = "1"
log = "0.4"
