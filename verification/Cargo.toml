[package]
name = "gt_trav"
version = "0.1.0"
edition = "2021"
publish = false

[dependencies]
anyhow = "1"
chrono = "0.4"
encoding_rs = "0.8"
once_cell = "1"
rcgen = { version = "0.13", features = ["x509-parser"] }
tokio = { version = "1", features = ["sync", "rt", "rt-multi-thread", "time", "macros", "net", "io-util"] }
tracing = "0.1"
uuid = { version = "1", features = ["v4"] }
