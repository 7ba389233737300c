[package]
name = "hooked"
version = "0.1.0"
edition = "2021"
publish = false

[dependencies]
ring = "0.17"
duct = "*"
log = "0.4"
simplelog = "*"
serde = { version = "1", features = ["derive"] }
serde_json = "1"
serde_yaml = "*"
rocket = { version = "0.5", features = ["json"] }
