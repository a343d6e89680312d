[package]
name = "crm_core"
version = "0.1.0"
edition = "2021"
publish = false

[dependencies]
uuid = { version = "1", features = ["v4"] }
blake3 = "1"
rand = "0.8"
chrono = "0.4"
