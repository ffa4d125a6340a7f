[package]
name = "dao_rollup"
version = "0.1.0"
edition = "2021"
publish = false

[dependencies]
alloy-primitives = { version = "0.7", default-features = false, features = ["std", "k256", "serde"] }
alloy-sol-types = { version = "0.7", default-features = false, features = ["std"] }
anyhow = "1"
bincode = "1"
chess = "3"
serde = { version = "1", features = ["derive"] }
serde_json = "1"
