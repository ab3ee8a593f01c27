[package]
name = "probe_core"
version = "0.1.0"
edition = "2021"
publish = false

[dependencies]
rhai = "=1.26.1"
reqwest = { version = "=0.13.5", features = ["blocking"] }
serde_json = "=1.0.151"
tokio = { version = "=1.53.2", default-features = false, features = ["rt-multi-thread", "macros"] }
