[package]
name = "postcode"
version = "0.1.0"
edition = "2021"
publish = false

[dependencies]
serde_json = "1"
surf = "2"
thiserror = "1"
