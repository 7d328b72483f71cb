[package]
name = "semver_bump"
version = "0.1.0"
edition = "2021"
publish = false

[dependencies]
anyhow = "1"
clap = { version = "4", features = ["derive"] }
semver = "1"
serde_json = { version = "1", features = ["preserve_order"] }
serde_yaml = "0.9"
toml_edit = "0.22"
