[package]
name = "mvc"
version = "0.1.0"
edition = "2021"
publish = false

[dependencies]
tinytemplate = "1"
serde = { version = "1", features = ["derive"] }
serde_json = "1"
log = "0.4"
env_logger = "*"
rouille = "3"
