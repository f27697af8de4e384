[package]
name = "tetanes-core"
version = "0.1.0"
edition = "2021"
publish = false

[dependencies]
bincode = { version = "2", features = ["serde"] }
flate2 = "1"
serde = { version = "1", features = ["derive"] }
thiserror = "2"
