[package]
name = "dob_decoder"
version = "0.1.0"
edition = "2021"
publish = false

[dependencies]
ckb-types = "*"
jsonrpsee = { version = "*", default-features = false, features = ["jsonrpsee-types"] }
serde = { version = "1", features = ["derive"] }
serde_json = "1"
thiserror = "*"
