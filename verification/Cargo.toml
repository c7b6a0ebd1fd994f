[package]
name = "castled_engine"
version = "0.1.0"
edition = "2021"
publish = false

[dependencies]
shakmaty = "0.27"
chrono = { version = "0.4", default-features = false, features = ["clock", "std"] }
queues = "1"
serde = { version = "1", features = ["derive"] }
serde_derive = "1"
toml = "0.8"
