[package]
name = "bridge_network"
version = "0.1.0"
edition = "2021"
publish = false

[dependencies]
bitcoin = { version = "0.32", default-features = false, features = ["std"] }
serde = { version = "1", features = ["derive"] }
