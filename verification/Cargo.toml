[package]
name = "ayagami"
version = "0.1.0"
edition = "2021"
publish = false

[dependencies]
glam = "*"
log = "*"
serde = { version = "*", features = ["derive"] }
serde_derive = "*"
env_logger = "*"
thiserror = "*"
