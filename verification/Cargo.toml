[package]
name = "quota_layer"
version = "0.1.0"
edition = "2021"
publish = false

[dependencies]
async-trait = "=0.1.92"
opendal = { version = "=0.57.0", default-features = false, features = ["services-memory"] }
tokio = { version = "=1.54.1", features = ["rt", "sync"] }
