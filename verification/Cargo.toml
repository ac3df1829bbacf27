[package]
name = "heliotrope"
version = "0.1.0"
edition = "2021"
publish = false

[dependencies]
blob = "*"
reqwest = { version = "0.11", features = ["blocking"] }
serde = { version = "1", features = ["derive"] }
serde_json = "1"
