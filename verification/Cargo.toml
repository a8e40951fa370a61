[package]
name = "baseproject_config"
version = "0.1.0"
edition = "2021"
publish = false

[dependencies]
chrono = "0.4"
dark-light = "2"
dirs-2 = "*"
log = "0.4"
serde = { version = "1", features = ["derive"] }
serde_json = "1"
