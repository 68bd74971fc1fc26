[package]
name = "local_store"
version = "0.1.0"
edition = "2021"
publish = false

[dependencies]
toml_edit = { version = "*", features = ["serde"] }
serde = { version = "*", features = ["derive"] }
