[package]
name = "oxide_motive"
version = "0.1.0"
edition = "2021"
publish = false

[dependencies]
heapless = "=0.8.0"
crc = "=3.4.0"
ed25519-dalek = "=1.0.1"
serde = { version = "=1.0.229", features = ["derive"] }
postcard = { version = "=1.1.3", features = ["alloc"] }
tokio = { version = "=1.54.1", features = ["sync", "time"] }
nalgebra = "=0.35.0"
embedded-io-async = "=0.7.0"
embassy-sync = "=0.8.0"
embassy-time = "=0.5.1"
serde_json = "=1.0.154"
