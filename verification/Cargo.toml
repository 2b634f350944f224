[package]
name = "viaems"
version = "0.1.0"
edition = "2021"
publish = false

[dependencies]
serde = { version = "1", features = ["derive"] }
serde_cbor = "0.11"
clap = { version = "4", features = ["derive"] }
ctrlc = "3"
rusb = "0.9"
rusb-async = "0.0.1-alpha"
sqlite = "*"
