[package]
name = "pbjson_build"
version = "0.1.0"
edition = "2021"
publish = false

[dev-dependencies]
serde = "1"
serde_json = "1"
