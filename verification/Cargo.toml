[package]
name = "typed_id"
version = "0.1.0"
edition = "2021"

[dependencies]
serde = "1"

[dev-dependencies]
serde_json = "1"
