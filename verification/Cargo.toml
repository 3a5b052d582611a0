[package]
name = "dpl"
version = "0.1.0"
edition = "2021"
publish = false

[dependencies]
toml_edit = "*"
serde_json = "*"
etcetera = "*"
anyhow = "*"
clap = { version = "*", features = ["derive"] }
reqwest = { version = "*", default-features = false, features = ["blocking"] }
