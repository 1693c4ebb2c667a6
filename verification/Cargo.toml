[package]
name = "batch_processor"
version = "0.1.0"
edition = "2021"
publish = false

[dependencies]
ed25519-dalek = { version = "1.0.1", features = ["batch"] }
rand = "0.7"
rayon = "1"
tokio = { version = "1", features = ["sync", "rt", "rt-multi-thread", "macros"] }
log = "0.4"

[dev-dependencies]
bincode = "1"
