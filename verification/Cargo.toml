[package]
name = "npm_package"
version = "0.1.0"
edition = "2021"
publish = false

[dependencies]
serde = { version = "1", features = ["derive"] }
serde_json = "1"
validate_npm_package_name = "*"
