[package]
name = "micyou_plugin"
version = "0.1.0"
edition = "2021"
publish = false

[dependencies]
semver = "1"
serde = { version = "1", features = ["derive"] }
serde_json = "1"
wasmi = "*"
zip = { version = "*", default-features = false, features = ["deflate"] }
clap = { version = "4", features = ["derive"] }
cpal = "*"
log = "0.4"
