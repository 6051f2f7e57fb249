[package]
name = "valence_core"
version = "0.1.0"
edition = "2021"
publish = false

[dependencies]
rsa = "0.9"
rsa-der = "0.3"
rand = "0.8"
uuid = "1"
reqwest = { version = "0.12", default-features = false }
tokio = { version = "1", features = ["rt-multi-thread", "sync", "time"] }
valence_nbt = "*"
