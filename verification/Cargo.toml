[package]
name = "rokit"
version = "0.1.0"
edition = "2021"
publish = false

[dependencies]
semver = "*"
serde = "*"
serde_json = "*"
serde_with = "*"
thiserror = "*"
tokio = { version = "*", features = ["rt"] }
toml_edit = "*"
zip = { version = "*", default-features = false }
